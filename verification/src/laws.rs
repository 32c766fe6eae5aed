use vstd::prelude::*;
use crate::error::{ErrorModel, ErrorType};
use crate::extract::{
    considered, extracted, extraction, fault_error, fault_position, field_fault, identification,
    identifier_name, lemma_fault_position, lemma_first_fault, lemma_no_fault, not_object_error,
    user_table, Fault, Policy,
};
use crate::json::JsonModel;
use crate::patch::{patch_body_extraction, patch_extraction, patch_outcome, updated};
use crate::post::{inserted, post_outcome};
use crate::schema::{
    distinct_names, field_named, field_position, lemma_field_named_unique, lemma_field_position,
    table_named, FieldModel, TableModel,
};
use crate::types::{decode, decode_full, kind_of, DataKind, Mismatch, ValueModel};

verus! {

/// A field that a create request has to bring.
pub open spec fn must_be_sent(f: FieldModel) -> bool {
    f.required && !f.generated
}

/// A value that decodes has the kind it was decoded as.
pub proof fn lemma_decoded_kind(kind: DataKind, m: JsonModel)
    ensures
        decode(kind, m) is Ok ==> kind_of(decode(kind, m)->Ok_0) == kind,
        decode_full(kind, m) is Ok <==> decode(kind, m) is Ok,
        decode_full(kind, m) is Ok ==> decode_full(kind, m)->Ok_0 == decode(kind, m)->Ok_0,
{
}

/// Every extracted value has the kind that its field declares.
pub proof fn lemma_extracted_kinds(
    entries: Map<Seq<char>, JsonModel>,
    fields: Seq<FieldModel>,
    policy: Policy,
    i: int,
)
    requires
        distinct_names(fields),
        0 <= i < fields.len(),
        extraction(JsonModel::Object(entries), fields, policy) is Ok,
        considered(fields[i], policy),
        entries.contains_key(fields[i].name),
    ensures
        extraction(JsonModel::Object(entries), fields, policy)->Ok_0.contains_key(fields[i].name),
        extraction(JsonModel::Object(entries), fields, policy)->Ok_0[fields[i].name] == decode(
            fields[i].kind,
            entries[fields[i].name],
        )->Ok_0,
        kind_of(extraction(JsonModel::Object(entries), fields, policy)->Ok_0[fields[i].name])
            == fields[i].kind,
{
    lemma_fault_position(entries, fields, policy);
    lemma_field_named_unique(fields, i);
    assert(field_fault(entries, fields[i], policy) is None);
    lemma_decoded_kind(fields[i].kind, entries[fields[i].name]);
}

/// A body that holds exactly the fields that must be sent, each with a
/// value that decodes, is accepted for creation; the result holds exactly
/// those fields, each decoded as its declared kind.
pub proof fn law_create_accepts_exact_body(
    entries: Map<Seq<char>, JsonModel>,
    fields: Seq<FieldModel>,
)
    requires
        distinct_names(fields),
        forall|i: int|
            0 <= i < fields.len() && must_be_sent(#[trigger] fields[i]) ==> entries.contains_key(
                fields[i].name,
            ) && decode(fields[i].kind, entries[fields[i].name]) is Ok,
        forall|k: Seq<char>|
            entries.contains_key(k) ==> exists|i: int|
                0 <= i < fields.len() && must_be_sent(#[trigger] fields[i]) && fields[i].name == k,
    ensures
        extraction(JsonModel::Object(entries), fields, Policy::Create) is Ok,
        extraction(JsonModel::Object(entries), fields, Policy::Create)->Ok_0.dom()
            == entries.dom(),
        forall|i: int|
            0 <= i < fields.len() && must_be_sent(#[trigger] fields[i]) ==> {
                let v = extraction(JsonModel::Object(entries), fields, Policy::Create)->Ok_0[fields[i].name];
                v == decode(fields[i].kind, entries[fields[i].name])->Ok_0 && kind_of(v)
                    == fields[i].kind
            },
{
    let policy = Policy::Create;
    assert forall|j: int| 0 <= j < fields.len() implies field_fault(
        entries,
        #[trigger] fields[j],
        policy,
    ) is None by {
        let f = fields[j];
        if entries.contains_key(f.name) {
            let i = choose|i: int|
                0 <= i < fields.len() && must_be_sent(#[trigger] fields[i]) && fields[i].name
                    == f.name;
            assert(i == j);
        }
    }
    lemma_no_fault(entries, fields, policy);
    let m = extracted(entries, fields, policy);
    assert forall|k: Seq<char>| entries.contains_key(k) implies m.contains_key(k) by {
        let i = choose|i: int|
            0 <= i < fields.len() && must_be_sent(#[trigger] fields[i]) && fields[i].name == k;
        lemma_field_named_unique(fields, i);
    }
    assert(m.dom() =~= entries.dom());
    assert forall|i: int| 0 <= i < fields.len() && must_be_sent(#[trigger] fields[i]) implies {
        let v = m[fields[i].name];
        v == decode(fields[i].kind, entries[fields[i].name])->Ok_0 && kind_of(v) == fields[i].kind
    } by {
        lemma_extracted_kinds(entries, fields, policy, i);
    }
}

/// Taking one field that must be sent out of a body that creation accepts
/// makes creation fail with a bad request that names the field.
pub proof fn law_create_names_missing_field(
    entries: Map<Seq<char>, JsonModel>,
    fields: Seq<FieldModel>,
    i: int,
)
    requires
        distinct_names(fields),
        extraction(JsonModel::Object(entries), fields, Policy::Create) is Ok,
        0 <= i < fields.len(),
        must_be_sent(fields[i]),
    ensures
        extraction(
            JsonModel::Object(entries.remove(fields[i].name)),
            fields,
            Policy::Create,
        ) == Err::<Map<Seq<char>, ValueModel>, ErrorModel>(
            fault_error(Fault::Missing { field: fields[i].name }),
        ),
        fault_error(Fault::Missing { field: fields[i].name }).kind == ErrorType::BadRequest,
        fault_error(Fault::Missing { field: fields[i].name }).message == "field "@
            + fields[i].name
            + " is listed as required, but was not included in the request body"@,
{
    let policy = Policy::Create;
    let less = entries.remove(fields[i].name);
    lemma_fault_position(entries, fields, policy);
    assert forall|j: int| 0 <= j < i implies field_fault(less, #[trigger] fields[j], policy)
        is None by {
        assert(field_fault(entries, fields[j], policy) is None);
    }
    lemma_first_fault(less, fields, policy, i);
}

/// Two bodies hold the same under the names of the fields up to position
/// `i`.
pub open spec fn same_up_to(
    a: Map<Seq<char>, JsonModel>,
    b: Map<Seq<char>, JsonModel>,
    fields: Seq<FieldModel>,
    i: int,
) -> bool {
    forall|j: int|
        0 <= j <= i && j < fields.len() ==> a.contains_key(#[trigger] fields[j].name)
            == b.contains_key(fields[j].name) && (a.contains_key(fields[j].name)
            ==> a[fields[j].name] == b[fields[j].name])
}

/// A field that the body holds with a value that does not decode, with no
/// faulty field before it in declared order, decides the error: a bad
/// request that names the field and says what was wrong with the value,
/// whatever the fields after it hold.
pub proof fn law_first_mismatch_decides(
    entries: Map<Seq<char>, JsonModel>,
    fields: Seq<FieldModel>,
    policy: Policy,
    i: int,
)
    requires
        0 <= i < fields.len(),
        considered(fields[i], policy),
        entries.contains_key(fields[i].name),
        decode(fields[i].kind, entries[fields[i].name]) is Err,
        forall|j: int| 0 <= j < i ==> field_fault(entries, #[trigger] fields[j], policy) is None,
    ensures
        extraction(JsonModel::Object(entries), fields, policy) == Err::<
            Map<Seq<char>, ValueModel>,
            ErrorModel,
        >(
            fault_error(
                Fault::Malformed {
                    field: fields[i].name,
                    error: decode_full(fields[i].kind, entries[fields[i].name])->Err_0,
                },
            ),
        ),
        extraction(JsonModel::Object(entries), fields, policy)->Err_0.kind
            == ErrorType::BadRequest,
        forall|later: Map<Seq<char>, JsonModel>|
            same_up_to(entries, later, fields, i) ==> #[trigger] extraction(
                JsonModel::Object(later),
                fields,
                policy,
            ) == extraction(JsonModel::Object(entries), fields, policy),
{
    lemma_first_fault(entries, fields, policy, i);
    assert forall|later: Map<Seq<char>, JsonModel>|
        same_up_to(entries, later, fields, i) implies #[trigger] extraction(
        JsonModel::Object(later),
        fields,
        policy,
    ) == extraction(JsonModel::Object(entries), fields, policy) by {
        assert forall|j: int| 0 <= j <= i implies field_fault(later, #[trigger] fields[j], policy)
            == field_fault(entries, fields[j], policy) by {
            assert(later.contains_key(fields[j].name) == entries.contains_key(fields[j].name));
        }
        lemma_first_fault(later, fields, policy, i);
    }
}

/// An update whose body holds only fields that need not be sent, each with
/// a value that decodes, and not the identifier, is accepted; the result
/// holds exactly the fields of the body, each decoded as its declared kind.
pub proof fn law_update_accepts_partial_body(
    entries: Map<Seq<char>, JsonModel>,
    fields: Seq<FieldModel>,
)
    requires
        distinct_names(fields),
        forall|k: Seq<char>|
            entries.contains_key(k) ==> k != identifier_name() && exists|i: int|
                0 <= i < fields.len() && !(#[trigger] fields[i]).required && fields[i].name == k
                    && decode(fields[i].kind, entries[k]) is Ok,
    ensures
        extraction(JsonModel::Object(entries), fields, Policy::Update) is Ok,
        extraction(JsonModel::Object(entries), fields, Policy::Update)->Ok_0.dom()
            == entries.dom(),
        forall|i: int|
            0 <= i < fields.len() && entries.contains_key(#[trigger] fields[i].name) ==> {
                let v = extraction(JsonModel::Object(entries), fields, Policy::Update)->Ok_0[fields[i].name];
                v == decode(fields[i].kind, entries[fields[i].name])->Ok_0 && kind_of(v)
                    == fields[i].kind
            },
{
    let policy = Policy::Update;
    assert forall|j: int| 0 <= j < fields.len() implies field_fault(
        entries,
        #[trigger] fields[j],
        policy,
    ) is None by {
        let f = fields[j];
        if entries.contains_key(f.name) {
            let i = choose|i: int|
                0 <= i < fields.len() && !(#[trigger] fields[i]).required && fields[i].name
                    == f.name && decode(fields[i].kind, entries[f.name]) is Ok;
            assert(i == j);
        }
    }
    lemma_no_fault(entries, fields, policy);
    let m = extracted(entries, fields, policy);
    assert forall|k: Seq<char>| entries.contains_key(k) implies m.contains_key(k) by {
        let i = choose|i: int|
            0 <= i < fields.len() && !(#[trigger] fields[i]).required && fields[i].name == k
                && decode(fields[i].kind, entries[k]) is Ok;
        lemma_field_named_unique(fields, i);
    }
    assert(m.dom() =~= entries.dom());
    assert forall|i: int|
        0 <= i < fields.len() && entries.contains_key(#[trigger] fields[i].name) implies {
        let v = m[fields[i].name];
        v == decode(fields[i].kind, entries[fields[i].name])->Ok_0 && kind_of(v) == fields[i].kind
    } by {
        lemma_extracted_kinds(entries, fields, policy, i);
    }
}

/// An update never fails for want of a field: with a body that is an
/// object whose fields all decode, it is accepted.
pub proof fn law_update_needs_no_field(
    entries: Map<Seq<char>, JsonModel>,
    fields: Seq<FieldModel>,
)
    requires
        forall|i: int|
            0 <= i < fields.len() && entries.contains_key(#[trigger] fields[i].name) ==> decode(
                fields[i].kind,
                entries[fields[i].name],
            ) is Ok,
    ensures
        extraction(JsonModel::Object(entries), fields, Policy::Update) is Ok,
{
    assert forall|j: int| 0 <= j < fields.len() implies field_fault(
        entries,
        #[trigger] fields[j],
        Policy::Update,
    ) is None by {
        if entries.contains_key(fields[j].name) {
        }
    }
    lemma_no_fault(entries, fields, Policy::Update);
}

/// A member of the body whose key names no field of the table does not
/// count: with it or without it, and whatever its value, extraction gives
/// the same result under every policy.
pub proof fn law_unknown_key_ignored(
    entries: Map<Seq<char>, JsonModel>,
    fields: Seq<FieldModel>,
    policy: Policy,
    key: Seq<char>,
    value: JsonModel,
)
    requires
        field_named(fields, key) is None,
    ensures
        extraction(JsonModel::Object(entries.insert(key, value)), fields, policy) == extraction(
            JsonModel::Object(entries),
            fields,
            policy,
        ),
        extraction(JsonModel::Object(entries.remove(key)), fields, policy) == extraction(
            JsonModel::Object(entries),
            fields,
            policy,
        ),
{
    lemma_field_position(fields, key);
    lemma_same_on_fields(entries, entries.insert(key, value), fields, policy);
    lemma_same_on_fields(entries, entries.remove(key), fields, policy);
}

/// Two bodies that agree on every key that names a field give the same
/// result.
pub proof fn lemma_same_on_fields(
    a: Map<Seq<char>, JsonModel>,
    b: Map<Seq<char>, JsonModel>,
    fields: Seq<FieldModel>,
    policy: Policy,
)
    requires
        forall|j: int|
            0 <= j < fields.len() ==> a.contains_key(#[trigger] fields[j].name) == b.contains_key(
                fields[j].name,
            ) && (a.contains_key(fields[j].name) ==> a[fields[j].name] == b[fields[j].name]),
    ensures
        extraction(JsonModel::Object(a), fields, policy) == extraction(
            JsonModel::Object(b),
            fields,
            policy,
        ),
{
    assert forall|j: int| 0 <= j < fields.len() implies field_fault(a, #[trigger] fields[j], policy)
        == field_fault(b, fields[j], policy) by {
        assert(a.contains_key(fields[j].name) == b.contains_key(fields[j].name));
    }
    lemma_fault_position(a, fields, policy);
    lemma_fault_position(b, fields, policy);
    let p = fault_position(a, fields, policy);
    let q = fault_position(b, fields, policy);
    if p < q {
        assert(field_fault(b, fields[p], policy) is None);
    }
    if q < p {
        assert(field_fault(a, fields[q], policy) is None);
    }
    assert(p == q);
    if p >= fields.len() {
        let ma = extracted(a, fields, policy);
        let mb = extracted(b, fields, policy);
        assert forall|k: Seq<char>|
            #[trigger] ma.contains_key(k) == mb.contains_key(k) && (ma.contains_key(k) ==> ma[k]
                == mb[k]) by {
            if field_named(fields, k) is Some {
                lemma_field_position(fields, k);
                let i = field_position(fields, k);
                assert(a.contains_key(fields[i].name) == b.contains_key(fields[i].name));
            }
        }
        assert(ma =~= mb);
    }
}

/// A body that is no JSON object fails with a bad request under every
/// policy, whatever the table.
pub proof fn law_non_object_rejected(body: JsonModel, fields: Seq<FieldModel>, policy: Policy)
    requires
        !(body is Object),
    ensures
        extraction(body, fields, policy) == Err::<Map<Seq<char>, ValueModel>, ErrorModel>(
            not_object_error(body),
        ),
        not_object_error(body).kind == ErrorType::BadRequest,
{
}

/// A value that extraction gives under a name has the kind that the field
/// of that name declares.
pub proof fn lemma_extracted_value(
    entries: Map<Seq<char>, JsonModel>,
    fields: Seq<FieldModel>,
    policy: Policy,
    name: Seq<char>,
)
    requires
        extraction(JsonModel::Object(entries), fields, policy) is Ok,
        extraction(JsonModel::Object(entries), fields, policy)->Ok_0.contains_key(name),
    ensures
        field_named(fields, name) is Some,
        kind_of(extraction(JsonModel::Object(entries), fields, policy)->Ok_0[name]) == field_named(
            fields,
            name,
        )->0.kind,
{
    lemma_fault_position(entries, fields, policy);
    lemma_field_position(fields, name);
    let p = field_position(fields, name);
    assert(field_fault(entries, fields[p], policy) is None);
    lemma_decoded_kind(fields[p].kind, entries[name]);
}

/// A field that must be sent is in every result of a create extraction.
pub proof fn lemma_created_holds(
    entries: Map<Seq<char>, JsonModel>,
    fields: Seq<FieldModel>,
    name: Seq<char>,
)
    requires
        extraction(JsonModel::Object(entries), fields, Policy::Create) is Ok,
        field_named(fields, name) is Some,
        must_be_sent(field_named(fields, name)->0),
    ensures
        extraction(JsonModel::Object(entries), fields, Policy::Create)->Ok_0.contains_key(name),
{
    lemma_fault_position(entries, fields, Policy::Create);
    lemma_field_position(fields, name);
    let p = field_position(fields, name);
    assert(field_fault(entries, fields[p], Policy::Create) is None);
}

/// The table of users declares the fields that the handlers read with the
/// kinds that they expect: `name` and `email` as strings and `type` as an
/// enum, `registered` as a string if it is declared at all.
pub open spec fn declares_user(fields: Seq<FieldModel>) -> bool {
    &&& field_named(fields, "name"@) is Some
    &&& field_named(fields, "name"@)->0.kind == DataKind::String
    &&& field_named(fields, "email"@) is Some
    &&& field_named(fields, "email"@)->0.kind == DataKind::String
    &&& field_named(fields, "type"@) is Some
    &&& field_named(fields, "type"@)->0.kind == DataKind::Enum
    &&& field_named(fields, "registered"@) is Some ==> field_named(fields, "registered"@)->0.kind
        == DataKind::String
}

/// The three fields without which no user is created must be sent.
pub open spec fn demands_user(fields: Seq<FieldModel>) -> bool {
    &&& declares_user(fields)
    &&& must_be_sent(field_named(fields, "name"@)->0)
    &&& must_be_sent(field_named(fields, "email"@)->0)
    &&& must_be_sent(field_named(fields, "type"@)->0)
}

/// With a table that declares the user's fields as the handler expects
/// them, whatever fails in a create request is the client's to correct: the
/// error is a bad request, never an internal one.
pub proof fn law_create_fails_only_on_bad_requests(body: JsonModel, registry: Seq<TableModel>)
    requires
        table_named(registry, user_table()) is Some,
        demands_user(table_named(registry, user_table())->0.fields),
    ensures
        post_outcome(body, registry) is Err ==> post_outcome(body, registry)->Err_0.kind
            == ErrorType::BadRequest,
{
    let fields = table_named(registry, user_table())->0.fields;
    if body is Object {
        let entries = body->Object_0;
        lemma_fault_position(entries, fields, Policy::Create);
        if extraction(body, fields, Policy::Create) is Ok {
            let m = extraction(body, fields, Policy::Create)->Ok_0;
            lemma_created_holds(entries, fields, "name"@);
            lemma_created_holds(entries, fields, "email"@);
            lemma_created_holds(entries, fields, "type"@);
            lemma_extracted_value(entries, fields, Policy::Create, "name"@);
            lemma_extracted_value(entries, fields, Policy::Create, "email"@);
            lemma_extracted_value(entries, fields, Policy::Create, "type"@);
            if m.contains_key("registered"@) {
                lemma_extracted_value(entries, fields, Policy::Create, "registered"@);
            }
            assert(inserted(m) is Ok);
        }
    }
}

/// With a table that declares the user's fields as the handler expects
/// them, whatever fails in an update request is the client's to correct.
pub proof fn law_update_fails_only_on_bad_requests(
    id: u32,
    body: JsonModel,
    registry: Seq<TableModel>,
)
    requires
        table_named(registry, user_table()) is Some,
        declares_user(table_named(registry, user_table())->0.fields),
    ensures
        patch_outcome(patch_extraction(id, body, registry)) is Err ==> patch_outcome(
            patch_extraction(id, body, registry),
        )->Err_0.kind == ErrorType::BadRequest,
{
    let fields = table_named(registry, user_table())->0.fields;
    if body is Object {
        let entries = body->Object_0;
        lemma_fault_position(entries, fields, Policy::Update);
        if extraction(body, fields, Policy::Update) is Ok {
            let m = extraction(body, fields, Policy::Update)->Ok_0;
            if m.contains_key("name"@) {
                lemma_extracted_value(entries, fields, Policy::Update, "name"@);
            }
            if m.contains_key("email"@) {
                lemma_extracted_value(entries, fields, Policy::Update, "email"@);
            }
            if m.contains_key("registered"@) {
                lemma_extracted_value(entries, fields, Policy::Update, "registered"@);
            }
            if m.contains_key("type"@) {
                lemma_extracted_value(entries, fields, Policy::Update, "type"@);
            }
            assert(updated(id, m) is Ok);
        }
    }
}

/// With a table whose identifier is declared as an unsigned 32-bit integer,
/// identifier extraction fails only on bad requests, and gives the number
/// that the body holds under the identifier's name.
pub proof fn law_identifier_fails_only_on_bad_requests(body: JsonModel, fields: Seq<FieldModel>)
    requires
        field_named(fields, identifier_name()) is Some,
        field_named(fields, identifier_name())->0.kind == DataKind::UnsignedInt32,
    ensures
        match identification(body, fields) {
            Ok(id) => body is Object && body->Object_0.contains_key(identifier_name()) && decode(
                DataKind::UnsignedInt32,
                body->Object_0[identifier_name()],
            ) == Ok::<ValueModel, Mismatch>(ValueModel::UnsignedInt32(id)),
            Err(e) => e.kind == ErrorType::BadRequest,
        },
{
    if body is Object {
        let entries = body->Object_0;
        let name = identifier_name();
        lemma_fault_position(entries, fields, Policy::Identify);
        lemma_field_position(fields, name);
        let p = field_position(fields, name);
        if extraction(body, fields, Policy::Identify) is Ok {
            assert(field_fault(entries, fields[p], Policy::Identify) is None);
            lemma_extracted_value(entries, fields, Policy::Identify, name);
        }
    }
}

/// The same for an update whose identifier travels in the body, with a
/// table that also declares the identifier as an unsigned 32-bit integer.
pub proof fn law_update_body_fails_only_on_bad_requests(body: JsonModel, registry: Seq<TableModel>)
    requires
        table_named(registry, user_table()) is Some,
        declares_user(table_named(registry, user_table())->0.fields),
        field_named(table_named(registry, user_table())->0.fields, identifier_name()) is Some,
        field_named(table_named(registry, user_table())->0.fields, identifier_name())->0.kind
            == DataKind::UnsignedInt32,
    ensures
        patch_outcome(patch_body_extraction(body, registry)) is Err ==> patch_outcome(
            patch_body_extraction(body, registry),
        )->Err_0.kind == ErrorType::BadRequest,
{
    let fields = table_named(registry, user_table())->0.fields;
    law_identifier_fails_only_on_bad_requests(body, fields);
    if identification(body, fields) is Ok {
        let id = identification(body, fields)->Ok_0;
        law_update_fails_only_on_bad_requests(id, body, registry);
    }
}

} // verus!

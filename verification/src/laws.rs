//! The library's general guarantees, stated and proved once for all inputs.

use vstd::prelude::*;

use crate::envelope::DynamoDBRecord;
use crate::error::Error;
use crate::error::Field;
use crate::error::StructuralIssue;
use crate::event::Event;
use crate::event::EventV;
use crate::event::spec_classify;
use crate::json::assoc_find;
use crate::model::AttributeValue;
use crate::pipeline::batch_result_matches;
use crate::product::ProductV;
use crate::product::encodes_product;
use crate::product::encodes_product_store;
use crate::product::product_wf;
use crate::product::resolve_key;
use crate::product::spec_from_dynamodb;
use crate::product::spec_project;

verus! {

/// A projection that succeeds takes its identifier from the resolved
/// identifier key, and the canonical key takes precedence over the
/// alternate whenever the canonical one is present.
pub proof fn lemma_project_identifier(m: Seq<(String, AttributeValue)>)
    requires
        spec_project(m) is Ok,
    ensures
        (resolve_key(m, "Id"@, "id"@) matches Some(AttributeValue::S(s)) && (spec_project(
            m,
        ) matches Ok(p) && p.id == s@)),
        assoc_find(m, "Id"@) is Some ==> resolve_key(m, "Id"@, "id"@) == assoc_find(m, "Id"@),
{
}

/// A mapping whose identifier and name resolve to strings but which binds
/// no price under either key fails with the missing-price error, never
/// with a type mismatch.
pub proof fn lemma_missing_price(m: Seq<(String, AttributeValue)>)
    requires
        resolve_key(m, "Id"@, "id"@) matches Some(AttributeValue::S(_)),
        resolve_key(m, "Name"@, "name"@) matches Some(AttributeValue::S(_)),
        assoc_find(m, "Price"@) is None,
        assoc_find(m, "price"@) is None,
    ensures
        spec_project(m) == Err::<ProductV, Error>(Error::MissingField(Field::Price)),
{
}

/// Without a price bound under either key the projection cannot succeed,
/// and whatever else the mapping holds, the failure is never the price
/// type mismatch: that error is reserved for a present, wrongly tagged or
/// unparseable price.
pub proof fn lemma_missing_price_is_never_a_type_mismatch(m: Seq<(String, AttributeValue)>)
    requires
        assoc_find(m, "Price"@) is None,
        assoc_find(m, "price"@) is None,
    ensures
        spec_project(m) is Err,
        spec_project(m) != Err::<ProductV, Error>(Error::TypeMismatch(Field::Price)),
{
}

/// A present name tagged with a non-string kind fails as a type mismatch,
/// never as a missing field, once the identifier has resolved.
pub proof fn lemma_name_type_mismatch(m: Seq<(String, AttributeValue)>)
    requires
        resolve_key(m, "Id"@, "id"@) matches Some(AttributeValue::S(_)),
        resolve_key(m, "Name"@, "name"@) matches Some(v) && !(v is S),
    ensures
        spec_project(m) == Err::<ProductV, Error>(Error::TypeMismatch(Field::Name)),
{
}

/// Classifying a modify record whose images both project yields the update
/// event carrying both entities: the old one from the old image and the
/// new one from the new image, independently.
pub proof fn lemma_classify_modify(r: DynamoDBRecord, po: ProductV, pn: ProductV)
    requires
        r.event_name@ == "MODIFY"@,
        r.dynamodb.old_image matches Some(om) && spec_project(om@) == Ok::<ProductV, Error>(po),
        r.dynamodb.new_image matches Some(nm) && spec_project(nm@) == Ok::<ProductV, Error>(pn),
    ensures
        spec_classify(r) == Ok::<EventV, Error>(EventV::Updated { old: po, new: pn }),
{
    reveal_strlit("INSERT");
    reveal_strlit("MODIFY");
    assert("INSERT"@[0] == 'I' && "MODIFY"@[0] == 'M');
}

/// Classifying a remove record reads only the old image: two remove
/// records with the same old image classify alike, whatever else differs.
pub proof fn lemma_remove_uses_old_image_only(r1: DynamoDBRecord, r2: DynamoDBRecord)
    requires
        r1.event_name@ == "REMOVE"@,
        r2.event_name@ == "REMOVE"@,
        r1.dynamodb.old_image == r2.dynamodb.old_image,
    ensures
        spec_classify(r1) == spec_classify(r2),
{
    reveal_strlit("INSERT");
    reveal_strlit("MODIFY");
    reveal_strlit("REMOVE");
    assert("INSERT"@[0] == 'I' && "MODIFY"@[0] == 'M' && "REMOVE"@[0] == 'R');
}

/// A remove record lacking its old image is a structural failure, not a
/// projection of an empty entity.
pub proof fn lemma_remove_missing_image(r: DynamoDBRecord)
    requires
        r.event_name@ == "REMOVE"@,
        r.dynamodb.old_image is None,
    ensures
        spec_classify(r) == Err::<EventV, Error>(Error::StructuralDecode(StructuralIssue::MissingImage)),
{
    reveal_strlit("INSERT");
    reveal_strlit("MODIFY");
    reveal_strlit("REMOVE");
    assert("INSERT"@[0] == 'I' && "MODIFY"@[0] == 'M' && "REMOVE"@[0] == 'R');
}

/// One failing record fails the whole batch: no event sequence at all is
/// produced when any record's classification fails.
pub proof fn lemma_batch_all_or_nothing(
    r: Result<Vec<Event>, Error>,
    records: Seq<DynamoDBRecord>,
    i: int,
)
    requires
        batch_result_matches(r, records),
        0 <= i < records.len(),
        !(spec_classify(records[i]) is Ok),
    ensures
        r is Err,
{
}

/// Round trip: the canonical-key encoding of a well-formed entity
/// re-projects to an equal entity.
pub proof fn lemma_project_roundtrip(m: Seq<(String, AttributeValue)>, p: ProductV)
    requires
        encodes_product(m, p),
        product_wf(p),
    ensures
        spec_project(m) == Ok::<ProductV, Error>(p),
{
    reveal_strlit("Id");
    reveal_strlit("id");
    reveal_strlit("Name");
    reveal_strlit("name");
    reveal_strlit("Price");
    reveal_strlit("price");
    reveal_with_fuel(assoc_find, 5);
    assert("Id"@.len() == 2 && "id"@.len() == 2 && "Name"@.len() == 4 && "name"@.len() == 4
        && "Price"@.len() == 5 && "price"@.len() == 5);
    assert("Id"@[0] == 'I' && "id"@[0] == 'i' && "Name"@[0] == 'N' && "name"@[0] == 'n'
        && "Price"@[0] == 'P' && "price"@[0] == 'p');
    let m1 = m.drop_first();
    let m2 = m1.drop_first();
    assert(m1[0] == m[1] && m1[1] == m[2] && m2[0] == m[2]);
    assert(assoc_find(m, "Id"@) == Some(m[0].1));
    assert(assoc_find(m1, "Name"@) == Some(m[1].1));
    assert(assoc_find(m, "Name"@) == Some(m[1].1));
    assert(assoc_find(m2, "Price"@) == Some(m[2].1));
    assert(assoc_find(m1, "Price"@) == Some(m[2].1));
    assert(assoc_find(m, "Price"@) == Some(m[2].1));
}

/// Round trip through the store encoding: the lowercase keys are exactly
/// the alternate casing the projector tolerates, so a store item written
/// for a well-formed entity re-projects to an equal entity, through the
/// store's own reader and through the general projector alike.
pub proof fn lemma_store_roundtrip(m: Seq<(String, AttributeValue)>, p: ProductV)
    requires
        encodes_product_store(m, p),
        product_wf(p),
    ensures
        spec_from_dynamodb(m) == Ok::<ProductV, Error>(p),
        spec_project(m) == Ok::<ProductV, Error>(p),
{
    reveal_strlit("Id");
    reveal_strlit("id");
    reveal_strlit("Name");
    reveal_strlit("name");
    reveal_strlit("Price");
    reveal_strlit("price");
    reveal_with_fuel(assoc_find, 5);
    assert("Id"@.len() == 2 && "id"@.len() == 2 && "Name"@.len() == 4 && "name"@.len() == 4
        && "Price"@.len() == 5 && "price"@.len() == 5);
    assert("Id"@[0] == 'I' && "id"@[0] == 'i' && "Name"@[0] == 'N' && "name"@[0] == 'n'
        && "Price"@[0] == 'P' && "price"@[0] == 'p');
    let m1 = m.drop_first();
    let m2 = m1.drop_first();
    let m3 = m2.drop_first();
    assert(m1[0] == m[1] && m1[1] == m[2] && m2[0] == m[2]);
    assert(m3.len() == 0);
    assert(assoc_find(m, "id"@) == Some(m[0].1));
    assert(assoc_find(m1, "name"@) == Some(m[1].1));
    assert(assoc_find(m, "name"@) == Some(m[1].1));
    assert(assoc_find(m2, "price"@) == Some(m[2].1));
    assert(assoc_find(m1, "price"@) == Some(m[2].1));
    assert(assoc_find(m, "price"@) == Some(m[2].1));
    assert(assoc_find(m3, "Id"@) is None && assoc_find(m3, "Name"@) is None && assoc_find(m3,
        "Price"@) is None);
    assert(assoc_find(m2, "Id"@) is None && assoc_find(m2, "Name"@) is None && assoc_find(m2,
        "Price"@) is None);
    assert(assoc_find(m1, "Id"@) is None && assoc_find(m1, "Name"@) is None && assoc_find(m1,
        "Price"@) is None);
    assert(assoc_find(m, "Id"@) is None && assoc_find(m, "Name"@) is None && assoc_find(m,
        "Price"@) is None);
}

} // verus!

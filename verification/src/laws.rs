//! The library's laws: properties that tie several operations together,
//! stated over the same views and relations the operations' own contracts
//! use, and proved from them.

use vstd::prelude::*;
use crate::types::{MetaView, OptView, ContentType, PlatformView};
use crate::record::{init_rel, patch_rel, advance_time};
use crate::codec::{decode_meta_spec, enc_meta, meta_fits, lemma_decode_encode};
use crate::store::{
    insert_pairs, enc_pairs, insert_encoded, get_all_rel, stored_somewhere, listed_in,
};

verus! {

/// Law: a record created from a payload without the archive-creation flag
/// carries the payload's fields where present and the declared defaults
/// elsewhere, under the identifier it was created with — and once stored
/// under that identifier, reading the store back yields exactly that
/// record.
pub proof fn lemma_create_then_get(
    s: Map<Seq<char>, Seq<u8>>,
    o: OptView,
    now: u64,
    id: Seq<char>,
    m: MetaView,
)
    requires
        !o.flag_create_archive,
        init_rel(o, id, now, m),
        meta_fits(m),
    ensures
        decode_meta_spec(s.insert(id, enc_meta(m))[id]) == Some(m),
        m.id == id,
        (o.title matches Some(v) ==> m.title == v) && (o.title is None ==> m.title
            == Seq::<char>::empty()),
        (o.alias matches Some(v) ==> m.alias == v) && (o.alias is None ==> m.alias
            == Seq::<Seq<char>>::empty()),
        (o.tags matches Some(v) ==> m.tags == v) && (o.tags is None ==> m.tags
            == Seq::<Seq<char>>::empty()),
        (o.content_type matches Some(v) ==> m.content_type == v) && (o.content_type is None
            ==> m.content_type == ContentType::Other),
        (o.platform matches Some(v) ==> m.platform == v) && (o.platform is None ==> m.platform
            == PlatformView::Unknown),
        (o.description matches Some(v) ==> m.description == Some(v)) && (o.description is None
            ==> m.description is None),
        (o.developer matches Some(v) ==> m.developer == Some(v)) && (o.developer is None
            ==> m.developer is None),
        (o.publisher matches Some(v) ==> m.publisher == Some(v)) && (o.publisher is None
            ==> m.publisher is None),
        (o.version matches Some(v) ==> m.version == v) && (o.version is None ==> m.version
            == "1.0.0"@),
        (o.deploy_info matches Some(v) ==> m.deploy_info == v) && (o.deploy_info is None
            ==> m.deploy_info is Unset),
        (o.archive_info matches Some(v) ==> m.archive_info == v) && (o.archive_info is None ==> {
            &&& m.archive_info is Unset
            &&& m.archive_size == 0
        }),
        (o.time_created matches Some(v) ==> m.time_created == v) && (o.time_created is None
            ==> m.time_created == now),
        (o.time_updated matches Some(v) ==> m.time_updated == v) && (o.time_updated is None
            ==> m.time_updated == now),
{
    lemma_decode_encode(m);
}

/// Law: patching without the archive-creation flag overwrites exactly the
/// fields the payload carries; every absent field keeps the stored value
/// unchanged; the identifier never changes; and the update time strictly
/// increases (the one record this cannot hold of is one whose update time
/// already carries the largest stamp).
pub proof fn lemma_patch_fields(b: MetaView, o: OptView, now: u64, m: MetaView)
    requires
        !o.flag_create_archive,
        patch_rel(b, o, now, m),
        b.time_updated < u64::MAX,
    ensures
        m.id == b.id,
        (o.title matches Some(v) ==> m.title == v) && (o.title is None ==> m.title == b.title),
        (o.alias matches Some(v) ==> m.alias == v) && (o.alias is None ==> m.alias == b.alias),
        (o.tags matches Some(v) ==> m.tags == v) && (o.tags is None ==> m.tags == b.tags),
        (o.content_type matches Some(v) ==> m.content_type == v) && (o.content_type is None
            ==> m.content_type == b.content_type),
        (o.platform matches Some(v) ==> m.platform == v) && (o.platform is None ==> m.platform
            == b.platform),
        (o.description matches Some(v) ==> m.description == Some(v)) && (o.description is None
            ==> m.description == b.description),
        (o.developer matches Some(v) ==> m.developer == Some(v)) && (o.developer is None
            ==> m.developer == b.developer),
        (o.publisher matches Some(v) ==> m.publisher == Some(v)) && (o.publisher is None
            ==> m.publisher == b.publisher),
        (o.version matches Some(v) ==> m.version == v) && (o.version is None ==> m.version
            == b.version),
        (o.deploy_info matches Some(v) ==> m.deploy_info == v) && (o.deploy_info is None
            ==> m.deploy_info == b.deploy_info),
        (o.archive_info matches Some(v) ==> m.archive_info == v) && (o.archive_info is None ==> {
            &&& m.archive_info == b.archive_info
            &&& m.archive_size == b.archive_size
        }),
        (o.time_created matches Some(v) ==> m.time_created == v) && (o.time_created is None
            ==> m.time_created == b.time_created),
        m.time_updated > b.time_updated,
        m.time_updated == advance_time(b.time_updated, now),
{
}

/// The records a store holds, by key: the decoded form of every entry that
/// decodes.
pub open spec fn records_of(s: Map<Seq<char>, Seq<u8>>) -> Map<Seq<char>, MetaView> {
    Map::new(
        |k: Seq<char>| s.dom().contains(k) && decode_meta_spec(s[k]) is Some,
        |k: Seq<char>| decode_meta_spec(s[k]).unwrap(),
    )
}

/// A consistent store: every entry decodes, is stored under its own
/// record's identifier, and fits the wire format.
pub open spec fn store_consistent(s: Map<Seq<char>, Seq<u8>>) -> bool {
    forall|k: Seq<char>|
        #![trigger s.dom().contains(k)]
        s.dom().contains(k) ==> (decode_meta_spec(s[k]) matches Some(m) && m.id == k && meta_fits(
            m,
        ))
}

/// Law: storing a record under its own identifier keeps a consistent
/// store consistent — so every operation that writes what it read back
/// under the same key, creation, patch, deploy and deploy-off included,
/// preserves the invariant that each entry decodes to a record carrying
/// its key.
pub proof fn lemma_put_preserves_consistency(s: Map<Seq<char>, Seq<u8>>, k: Seq<char>, m: MetaView)
    requires
        store_consistent(s),
        m.id == k,
        meta_fits(m),
    ensures
        store_consistent(s.insert(k, enc_meta(m))),
{
    lemma_decode_encode(m);
    let t = s.insert(k, enc_meta(m));
    assert forall|k2: Seq<char>| #![trigger t.dom().contains(k2)] t.dom().contains(k2) implies (
    decode_meta_spec(t[k2]) matches Some(m2) && m2.id == k2 && meta_fits(m2)) by {
        if k2 != k {
            assert(s.dom().contains(k2));
        }
    }
}

/// Law: an upsert preserves store consistency. What it stores under the
/// returned identifier — a patch of the record that was there, or a fresh
/// record — carries that identifier as its own.
pub proof fn lemma_update_preserves_consistency(
    s: Map<Seq<char>, Seq<u8>>,
    o: OptView,
    now: u64,
    id: Seq<char>,
    m: MetaView,
)
    requires
        store_consistent(s),
        crate::store::update_rel(s, o, now, id, m),
        meta_fits(m),
    ensures
        store_consistent(s.insert(id, enc_meta(m))),
{
    match o.id {
        Some(i) => {
            if s.dom().contains(i) {
                assert(s.dom().contains(i));
                assert(m.id == i);
            }
        },
        None => {},
    }
    lemma_put_preserves_consistency(s, id, m);
}

/// Whether some record in the sequence carries the identifier.
pub open spec fn has_id(rs: Seq<MetaView>, k: Seq<char>) -> bool {
    exists|x: int| #![trigger rs[x]] 0 <= x < rs.len() && rs[x].id == k
}

/// What storing a record sequence does at one key: the key is present
/// exactly when the base map held it or some record carries it, a carried
/// key holds the encoding of a record carrying it, and an untouched key
/// keeps its base value.
#[verifier::rlimit(100)]
#[verifier::spinoff_prover]
proof fn lemma_insert_encoded_at(m0: Map<Seq<char>, Seq<u8>>, rs: Seq<MetaView>, k: Seq<char>)
    ensures
        insert_encoded(m0, rs).dom().contains(k) <==> (m0.dom().contains(k) || has_id(rs, k)),
        has_id(rs, k) ==> exists|x: int|
            #![trigger rs[x]]
            0 <= x < rs.len() && rs[x].id == k && insert_encoded(m0, rs)[k] == enc_meta(rs[x]),
        !has_id(rs, k) && m0.dom().contains(k) ==> insert_encoded(m0, rs)[k] == m0[k],
    decreases rs.len(),
{
    if rs.len() == 0 {
        assert(enc_pairs(rs) =~= Seq::<(Seq<char>, Seq<u8>)>::empty());
        assert(insert_encoded(m0, rs) == m0);
    } else {
        let head = rs[0];
        let rest = rs.drop_first();
        let m1 = m0.insert(head.id, enc_meta(head));
        assert(enc_pairs(rs)[0] == (head.id, enc_meta(head)));
        assert(enc_pairs(rs).drop_first() =~= enc_pairs(rest));
        assert(insert_encoded(m0, rs) == insert_pairs(m1, enc_pairs(rest)));
        lemma_insert_encoded_at(m1, rest, k);
        assert(forall|x: int| 0 <= x < rest.len() ==> #[trigger] rest[x] == rs[x + 1]);
        if has_id(rest, k) {
            let x = choose|x: int|
                #![trigger rest[x]]
                0 <= x < rest.len() && rest[x].id == k && insert_encoded(m1, rest)[k] == enc_meta(
                    rest[x],
                );
            assert(rs[x + 1].id == k && insert_encoded(m0, rs)[k] == enc_meta(rs[x + 1]));
            assert(has_id(rs, k));
        } else if head.id == k {
            assert(insert_encoded(m0, rs)[k] == m1[k] && m1[k] == enc_meta(head));
            assert(rs[0].id == k && insert_encoded(m0, rs)[k] == enc_meta(rs[0]));
            assert(has_id(rs, k));
        } else {
            if has_id(rs, k) {
                let x = choose|x: int| #![trigger rs[x]] 0 <= x < rs.len() && rs[x].id == k;
                assert(rest[x - 1] == rs[x]);
                assert(has_id(rest, k));
                assert(false);
            }
        }
    }
}

/// Law: exporting a store's records and importing them into an emptied
/// store reproduces the same records under the same identifiers. The
/// listing is any full listing of a consistent store, and the import
/// stores each listed record under its own identifier.
pub proof fn lemma_export_import_round_trip(s: Map<Seq<char>, Seq<u8>>, rs: Seq<MetaView>)
    requires
        store_consistent(s),
        get_all_rel(s, rs),
    ensures
        records_of(insert_encoded(Map::<Seq<char>, Seq<u8>>::empty(), rs)) == records_of(s),
{
    let t = insert_encoded(Map::<Seq<char>, Seq<u8>>::empty(), rs);
    assert forall|k: Seq<char>| #![trigger s.dom().contains(k)] s.dom().contains(k) implies (
    has_id(rs, k) && t.dom().contains(k) && decode_meta_spec(t[k]) == decode_meta_spec(
        s[k],
    )) by {
        let m = decode_meta_spec(s[k]).unwrap();
        assert(listed_in(rs, s[k]));
        let x = choose|x: int| #![trigger rs[x]] 0 <= x < rs.len() && decode_meta_spec(s[k])
            == Some(rs[x]);
        assert(rs[x] == m);
        assert(rs[x].id == k);
        assert(has_id(rs, k));
        lemma_insert_encoded_at(Map::<Seq<char>, Seq<u8>>::empty(), rs, k);
        let y = choose|y: int|
            #![trigger rs[y]]
            0 <= y < rs.len() && rs[y].id == k && t[k] == enc_meta(rs[y]);
        assert(stored_somewhere(s, rs[y]));
        let k2 = choose|k2: Seq<char>|
            #![trigger s.dom().contains(k2)]
            s.dom().contains(k2) && decode_meta_spec(s[k2]) == Some(rs[y]);
        assert(rs[y].id == k2);
        assert(k2 == k);
        assert(rs[y] == m);
        assert(meta_fits(m));
        lemma_decode_encode(m);
    }
    assert forall|k: Seq<char>| #![trigger t.dom().contains(k)] t.dom().contains(k) implies
        s.dom().contains(k) by {
        lemma_insert_encoded_at(Map::<Seq<char>, Seq<u8>>::empty(), rs, k);
        assert(has_id(rs, k));
        let x = choose|x: int| #![trigger rs[x]] 0 <= x < rs.len() && rs[x].id == k;
        assert(stored_somewhere(s, rs[x]));
        let k2 = choose|k2: Seq<char>|
            #![trigger s.dom().contains(k2)]
            s.dom().contains(k2) && decode_meta_spec(s[k2]) == Some(rs[x]);
        assert(rs[x].id == k2);
    }
    assert(records_of(t) =~= records_of(s));
}

} // verus!


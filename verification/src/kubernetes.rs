//! The Kubernetes objects that the operator reads and writes.

use vstd::prelude::*;
use vstd::string::*;
use vstd::utf8::encode_utf8;

use crate::crd::{Condition, ConditionView, ObjectMeta, API_VERSION, CONDITION_READY};
use crate::text::{cap, capped, opt_view, same, views};
use crate::time::Timestamp;

verus! {

/// Field manager the operator uses for server-side apply.
pub const FIELD_MANAGER: &'static str = "cnoidc";

/// Label put on every ConfigMap and Secret the operator writes.
pub const MANAGED_BY_LABEL: &'static str = "app.kubernetes.io/managed-by";

/// Longest message of a condition, in characters. Kubernetes caps condition
/// messages at 32 KiB; error chains are far shorter, but stay well clear.
pub const MAX_MESSAGE_CHARS: usize = 4096;

// --- Texts by key

/// Texts by key as seen by contracts.
pub open spec fn pair_views(list: Seq<(String, String)>) -> Seq<(Seq<char>, Seq<char>)> {
    list.map_values(|pair: (String, String)| (pair.0@, pair.1@))
}

/// The text of a key.
pub open spec fn text_at(list: Seq<(Seq<char>, Seq<char>)>, key: Seq<char>) -> Option<Seq<char>>
    decreases list.len(),
{
    if list.len() == 0 {
        None
    } else if list.first().0 == key {
        Some(list.first().1)
    } else {
        text_at(list.drop_first(), key)
    }
}

/// Whether no key occurs twice.
pub open spec fn distinct_keys(list: Seq<(Seq<char>, Seq<char>)>) -> bool {
    forall|i: int, j: int| 0 <= i < j < list.len() ==> #[trigger] list[i].0 != #[trigger] list[j].0
}

/// Adds a text under a key.
pub fn put(list: &mut Vec<(String, String)>, key: &str, value: &str)
    ensures
        pair_views(final(list)@) == pair_views(old(list)@).push((key@, value@)),
{
    list.push((key.to_owned(), value.to_owned()));
    assert(pair_views(list@) =~= pair_views(old(list)@).push((key@, value@)));
}

/// No texts.
pub fn no_texts() -> (r: Vec<(String, String)>)
    ensures
        pair_views(r@) == Seq::<(Seq<char>, Seq<char>)>::empty(),
{
    let r: Vec<(String, String)> = Vec::new();
    assert(pair_views(r@) =~= Seq::<(Seq<char>, Seq<char>)>::empty());
    r
}

// --- Ownership

/// What ties an object to the resource that it belongs to.
#[derive(Debug)]
pub struct OwnerReference {
    pub api_version: String,
    pub kind: String,
    pub name: String,
    pub uid: String,
    pub controller: Option<bool>,
    pub block_owner_deletion: Option<bool>,
}

/// An owner reference as seen by contracts.
#[verifier::ext_equal]
pub struct OwnerReferenceView {
    pub api_version: Seq<char>,
    pub kind: Seq<char>,
    pub name: Seq<char>,
    pub uid: Seq<char>,
    pub controller: Option<bool>,
    pub block_owner_deletion: Option<bool>,
}

impl View for OwnerReference {
    type V = OwnerReferenceView;

    open spec fn view(&self) -> OwnerReferenceView {
        OwnerReferenceView {
            api_version: self.api_version@,
            kind: self.kind@,
            name: self.name@,
            uid: self.uid@,
            controller: self.controller,
            block_owner_deletion: self.block_owner_deletion,
        }
    }
}

/// The reference to a resource as the controller of what it owns. A resource
/// without name or UID, which the cluster has not stored yet, cannot be
/// referred to; its reference is blank.
pub open spec fn owned_by(kind: Seq<char>, owner: ObjectMeta) -> OwnerReferenceView {
    match (owner.name, owner.uid) {
        (Some(name), Some(uid)) => OwnerReferenceView {
            api_version: API_VERSION@,
            kind,
            name: name@,
            uid: uid@,
            controller: Some(true),
            block_owner_deletion: Some(true),
        },
        _ => OwnerReferenceView {
            api_version: Seq::empty(),
            kind: Seq::empty(),
            name: Seq::empty(),
            uid: Seq::empty(),
            controller: None,
            block_owner_deletion: Some(true),
        },
    }
}

/// The reference to a resource as the controller of what it owns.
pub fn owner_reference(kind: &str, owner: &ObjectMeta) -> (r: OwnerReference)
    ensures
        r@ == owned_by(kind@, *owner),
{
    match (&owner.name, &owner.uid) {
        (Some(name), Some(uid)) => OwnerReference {
            api_version: API_VERSION.to_owned(),
            kind: kind.to_owned(),
            name: name.clone(),
            uid: uid.clone(),
            controller: Some(true),
            block_owner_deletion: Some(true),
        },
        _ => OwnerReference {
            api_version: String::new(),
            kind: String::new(),
            name: String::new(),
            uid: String::new(),
            controller: None,
            block_owner_deletion: Some(true),
        },
    }
}

/// Whether an object whose owners have these UIDs belongs to a resource; to
/// one without UID nothing does.
pub open spec fn belongs_to(owner_uids: Seq<Seq<char>>, owner: ObjectMeta) -> bool {
    match owner.uid {
        Some(uid) => owner_uids.contains(uid@),
        None => false,
    }
}

/// Whether an object whose owners have these UIDs belongs to a resource.
pub fn is_owned_by(owner_uids: &Vec<String>, owner: &ObjectMeta) -> (r: bool)
    ensures
        r == belongs_to(views(owner_uids@), *owner),
{
    match &owner.uid {
        Some(uid) => crate::text::lists(owner_uids, uid.as_str()),
        None => false,
    }
}

/// The labels of what the operator writes.
pub open spec fn labels() -> Seq<(Seq<char>, Seq<char>)> {
    seq![(MANAGED_BY_LABEL@, FIELD_MANAGER@)]
}

/// The labels of what the operator writes.
pub fn managed_labels() -> (r: Vec<(String, String)>)
    ensures
        pair_views(r@) == labels(),
{
    let mut r = no_texts();
    put(&mut r, MANAGED_BY_LABEL, FIELD_MANAGER);
    assert(pair_views(r@) =~= labels());
    r
}

/// The label selector of what the operator writes, for watching it: deleting
/// or editing such an object triggers a repair of the owning resource.
pub fn owned_selector() -> (r: String)
    ensures
        r@ == MANAGED_BY_LABEL@ + "="@ + FIELD_MANAGER@,
{
    MANAGED_BY_LABEL.to_owned().concat("=").concat(FIELD_MANAGER)
}

// --- What the operator writes

/// A ConfigMap or Secret to be applied.
#[derive(Debug)]
pub struct Manifest {
    pub name: String,
    pub namespace: String,
    pub labels: Vec<(String, String)>,
    pub owner: OwnerReference,
    pub data: Vec<(String, String)>,
}

/// A ConfigMap or Secret to be applied, as seen by contracts.
#[verifier::ext_equal]
pub struct ManifestView {
    pub name: Seq<char>,
    pub namespace: Seq<char>,
    pub labels: Seq<(Seq<char>, Seq<char>)>,
    pub owner: OwnerReferenceView,
    pub data: Seq<(Seq<char>, Seq<char>)>,
}

impl View for Manifest {
    type V = ManifestView;

    open spec fn view(&self) -> ManifestView {
        ManifestView {
            name: self.name@,
            namespace: self.namespace@,
            labels: pair_views(self.labels@),
            owner: self.owner@,
            data: pair_views(self.data@),
        }
    }
}

/// What the operator writes for a resource, with its label and an owner
/// reference.
pub fn manifest(
    namespace: &str,
    name: String,
    owner: OwnerReference,
    data: Vec<(String, String)>,
) -> (r: Manifest)
    ensures
        r@ == (ManifestView {
            name: name@,
            namespace: namespace@,
            labels: labels(),
            owner: owner@,
            data: pair_views(data@),
        }),
{
    Manifest { name, namespace: namespace.to_owned(), labels: managed_labels(), owner, data }
}

/// Type of the Secrets that the operator writes.
pub const SECRET_TYPE: &'static str = "Opaque";

// --- What the operator reads

/// A Secret that is there.
#[derive(Debug)]
pub struct StoredSecret {
    /// UIDs of its owners.
    pub owner_uids: Vec<String>,
    pub data: Option<Vec<(String, Vec<u8>)>>,
}

/// Bytes by key as seen by contracts.
pub open spec fn byte_views(list: Seq<(String, Vec<u8>)>) -> Seq<(Seq<char>, Seq<u8>)> {
    list.map_values(|pair: (String, Vec<u8>)| (pair.0@, pair.1@))
}

/// The bytes of a key.
pub open spec fn bytes_at(list: Seq<(Seq<char>, Seq<u8>)>, key: Seq<char>) -> Option<Seq<u8>>
    decreases list.len(),
{
    if list.len() == 0 {
        None
    } else if list.first().0 == key {
        Some(list.first().1)
    } else {
        bytes_at(list.drop_first(), key)
    }
}

impl StoredSecret {
    /// What the Secret holds under a key.
    pub open spec fn value(self, key: Seq<char>) -> Option<Seq<u8>> {
        match self.data {
            Some(data) => bytes_at(byte_views(data@), key),
            None => None,
        }
    }
}

fn position(list: &Vec<(String, Vec<u8>)>, key: &str) -> (r: Option<usize>)
    ensures
        match r {
            Some(i) => i < list@.len() && bytes_at(byte_views(list@), key@) == Some(
                list@[i as int].1@,
            ),
            None => bytes_at(byte_views(list@), key@) is None,
        },
{
    let mut i: usize = 0;
    let ghost all = byte_views(list@);
    proof {
        assert(all.skip(0) =~= all);
    }
    while i < list.len()
        invariant
            i <= list@.len(),
            all == byte_views(list@),
            bytes_at(all.skip(i as int), key@) == bytes_at(all, key@),
        decreases list@.len() - i,
    {
        proof {
            assert(all.skip(i as int).first() == all[i as int]);
            assert(all.skip(i as int).drop_first() =~= all.skip(i + 1));
        }
        if same(list[i].0.as_str(), key) {
            return Some(i);
        }
        i = i + 1;
    }
    None
}

/// Whether a Secret holds something under a key.
pub fn secret_has(secret: &StoredSecret, key: &str) -> (r: bool)
    ensures
        r == (secret.value(key@) matches Some(bytes) && bytes.len() > 0),
{
    match &secret.data {
        Some(data) => match position(data, key) {
            Some(i) => data[i].1.len() > 0,
            None => false,
        },
        None => false,
    }
}

fn same_bytes(a: &Vec<u8>, b: &[u8]) -> (r: bool)
    ensures
        r == (a@ == b@),
{
    if a.len() != b.len() {
        return false;
    }
    let mut i: usize = 0;
    while i < a.len()
        invariant
            i <= a@.len(),
            a@.len() == b@.len(),
            forall|j: int| 0 <= j < i ==> a@[j] == b@[j],
        decreases a@.len() - i,
    {
        if a[i] != b[i] {
            return false;
        }
        i = i + 1;
    }
    assert(a@ =~= b@);
    true
}

/// Whether a Secret holds exactly a text under a key.
pub fn secret_is(secret: &StoredSecret, key: &str, value: &str) -> (r: bool)
    ensures
        r == (secret.value(key@) == Some(encode_utf8(value@))),
{
    match &secret.data {
        Some(data) => match position(data, key) {
            Some(i) => same_bytes(&data[i].1, value.as_bytes()),
            None => false,
        },
        None => false,
    }
}

// --- Conditions

/// The condition that the operator maintains.
pub open spec fn readiness(
    generation: Option<i64>,
    ready: bool,
    reason: Seq<char>,
    message: Seq<char>,
    now: Timestamp,
) -> ConditionView {
    ConditionView {
        type_: CONDITION_READY@,
        status: if ready {
            "True"@
        } else {
            "False"@
        },
        reason,
        message: capped(message, MAX_MESSAGE_CHARS as nat),
        observed_generation: generation,
        last_transition_time: now,
    }
}

/// The condition that the operator maintains.
pub fn ready_condition(
    generation: Option<i64>,
    ready: bool,
    reason: &str,
    message: &str,
    now: Timestamp,
) -> (r: Condition)
    ensures
        r@ == readiness(generation, ready, reason@, message@, now),
{
    Condition {
        type_: CONDITION_READY.to_owned(),
        status: (if ready {
            "True"
        } else {
            "False"
        }).to_owned(),
        reason: reason.to_owned(),
        message: cap(message, MAX_MESSAGE_CHARS),
        observed_generation: generation,
        last_transition_time: now,
    }
}

// --- Laws

/// A condition's message is never longer than Kubernetes allows, and one
/// that is short enough is kept as it is.
pub proof fn messages_are_capped(
    generation: Option<i64>,
    ready: bool,
    reason: Seq<char>,
    message: Seq<char>,
    now: Timestamp,
)
    ensures
        readiness(generation, ready, reason, message, now).message.len() <= MAX_MESSAGE_CHARS,
        message.len() <= MAX_MESSAGE_CHARS ==> readiness(
            generation,
            ready,
            reason,
            message,
            now,
        ).message == message,
        readiness(generation, ready, reason, message, now).message.is_prefix_of(message),
{
}

/// What the operator writes for a stored resource belongs to that resource,
/// and to no other.
pub proof fn manifests_belong_to_their_resource(
    kind: Seq<char>,
    owner: ObjectMeta,
    other: ObjectMeta,
)
    requires
        owner.name is Some,
        owner.uid is Some,
    ensures
        belongs_to(seq![owned_by(kind, owner).uid], owner),
        belongs_to(seq![owned_by(kind, owner).uid], other) ==> opt_view(other.uid) == opt_view(
            owner.uid,
        ),
{
    let uids = seq![owned_by(kind, owner).uid];
    assert(uids[0] == owner.uid->0@);
}

/// What is written for a stored resource is labelled as managed by the
/// operator and controlled by that resource.
pub proof fn manifests_name_their_owner(kind: Seq<char>, owner: ObjectMeta)
    requires
        owner.name is Some,
        owner.uid is Some,
    ensures
        labels() == seq![("app.kubernetes.io/managed-by"@, "cnoidc"@)],
        ({
            let reference = owned_by(kind, owner);
            &&& reference.api_version == "cnoidc.famedly.com/v1alpha1"@
            &&& reference.kind == kind
            &&& reference.name == owner.name->0@
            &&& reference.uid == owner.uid->0@
            &&& reference.controller == Some(true)
            &&& reference.block_owner_deletion == Some(true)
        }),
{
}

/// A resource that lacks a name or a UID is not stored, and nothing names it:
/// not its kind, not itself, and not as a controller. Deletion is held up
/// either way.
pub proof fn what_is_not_stored_owns_nothing(kind: Seq<char>, owner: ObjectMeta)
    requires
        owner.name is None || owner.uid is None,
    ensures
        owned_by(kind, owner).api_version.len() == 0,
        owned_by(kind, owner).kind.len() == 0,
        owned_by(kind, owner).name.len() == 0,
        owned_by(kind, owner).uid.len() == 0,
        owned_by(kind, owner).controller is None,
        owned_by(kind, owner).block_owner_deletion == Some(true),
{
}

/// An object belongs to a resource exactly if the resource's UID is among those
/// of the object's owners.
pub proof fn ownership_goes_by_the_uid(owner_uids: Seq<Seq<char>>, owner: ObjectMeta)
    ensures
        belongs_to(owner_uids, owner) <==> (owner.uid is Some && exists|i: int|
            0 <= i < owner_uids.len() && #[trigger] owner_uids[i] == owner.uid->0@),
{
}

/// A condition says what it is told: whether the resource is ready, why, and
/// as of which generation and time.
pub proof fn conditions_say_what_they_are_told(
    generation: Option<i64>,
    ready: bool,
    reason: Seq<char>,
    message: Seq<char>,
    now: Timestamp,
)
    ensures
        ({
            let condition = readiness(generation, ready, reason, message, now);
            &&& condition.type_ == "Ready"@
            &&& condition.status == if ready {
                "True"@
            } else {
                "False"@
            }
            &&& condition.reason == reason
            &&& condition.observed_generation == generation
            &&& condition.last_transition_time == now
            &&& condition.message.len() == if message.len() < 4096 {
                message.len()
            } else {
                4096
            }
            &&& condition.message == message.take(condition.message.len() as int)
        }),
{
    let condition = readiness(generation, ready, reason, message, now);
    assert(condition.message =~= message.take(condition.message.len() as int));
}

/// What is held under a key is what the first pair with that key holds.
pub proof fn the_first_text_of_a_key_counts(list: Seq<(Seq<char>, Seq<char>)>, key: Seq<char>)
    ensures
        match text_at(list, key) {
            Some(text) => exists|i: int|
                {
                    &&& 0 <= i < list.len()
                    &&& #[trigger] list[i] == (key, text)
                    &&& forall|j: int| 0 <= j < i ==> (#[trigger] list[j]).0 != key
                },
            None => forall|j: int| 0 <= j < list.len() ==> (#[trigger] list[j]).0 != key,
        },
    decreases list.len(),
{
    if list.len() > 0 {
        let rest = list.drop_first();
        assert(list.first() == list[0]);
        assert forall|j: int| 1 <= j < list.len() implies #[trigger] list[j] == rest[j - 1] by {}
        if list[0].0 == key {
            assert(list[0] == (key, list[0].1));
        } else {
            the_first_text_of_a_key_counts(rest, key);
            match text_at(rest, key) {
                Some(text) => {
                    let i = choose|i: int|
                        {
                            &&& 0 <= i < rest.len()
                            &&& #[trigger] rest[i] == (key, text)
                            &&& forall|j: int| 0 <= j < i ==> (#[trigger] rest[j]).0 != key
                        };
                    assert(list[i + 1] == (key, text));
                    assert forall|j: int| 0 <= j < i + 1 implies (#[trigger] list[j]).0 != key by {
                        if j > 0 {
                            assert(list[j] == rest[j - 1]);
                        }
                    }
                },
                None => {},
            }
        }
    }
}

/// What a Secret holds under a key is what the first pair with that key holds;
/// a Secret without data holds nothing.
pub proof fn the_first_bytes_of_a_key_count(list: Seq<(Seq<char>, Seq<u8>)>, key: Seq<char>)
    ensures
        match bytes_at(list, key) {
            Some(bytes) => exists|i: int|
                {
                    &&& 0 <= i < list.len()
                    &&& #[trigger] list[i] == (key, bytes)
                    &&& forall|j: int| 0 <= j < i ==> (#[trigger] list[j]).0 != key
                },
            None => forall|j: int| 0 <= j < list.len() ==> (#[trigger] list[j]).0 != key,
        },
    decreases list.len(),
{
    if list.len() > 0 {
        let rest = list.drop_first();
        assert(list.first() == list[0]);
        assert forall|j: int| 1 <= j < list.len() implies #[trigger] list[j] == rest[j - 1] by {}
        if list[0].0 == key {
            assert(list[0] == (key, list[0].1));
        } else {
            the_first_bytes_of_a_key_count(rest, key);
            match bytes_at(rest, key) {
                Some(bytes) => {
                    let i = choose|i: int|
                        {
                            &&& 0 <= i < rest.len()
                            &&& #[trigger] rest[i] == (key, bytes)
                            &&& forall|j: int| 0 <= j < i ==> (#[trigger] rest[j]).0 != key
                        };
                    assert(list[i + 1] == (key, bytes));
                    assert forall|j: int| 0 <= j < i + 1 implies (#[trigger] list[j]).0 != key by {
                        if j > 0 {
                            assert(list[j] == rest[j - 1]);
                        }
                    }
                },
                None => {},
            }
        }
    }
}

/// What a Secret holds is in its data.
pub proof fn secrets_hold_their_data(secret: StoredSecret, key: Seq<char>)
    ensures
        secret.data is None ==> secret.value(key) is None,
        secret.data matches Some(data) ==> secret.value(key) == bytes_at(
            Seq::new(data@.len(), |i: int| (data@[i].0@, data@[i].1@)),
            key,
        ),
{
    if secret.data is Some {
        let data = secret.data->0;
        assert(byte_views(data@) =~= Seq::new(
            data@.len(),
            |i: int| (data@[i].0@, data@[i].1@),
        ));
    }
}

/// Contracts speak of what is written as it is.
pub proof fn manifests_are_seen_as_they_are(manifest: Manifest, owner: OwnerReference)
    ensures
        manifest@.name == manifest.name@,
        manifest@.namespace == manifest.namespace@,
        manifest@.owner == manifest.owner@,
        manifest@.labels == Seq::new(
            manifest.labels@.len(),
            |i: int| (manifest.labels@[i].0@, manifest.labels@[i].1@),
        ),
        manifest@.data == Seq::new(
            manifest.data@.len(),
            |i: int| (manifest.data@[i].0@, manifest.data@[i].1@),
        ),
        owner@.api_version == owner.api_version@,
        owner@.kind == owner.kind@,
        owner@.name == owner.name@,
        owner@.uid == owner.uid@,
        owner@.controller == owner.controller,
        owner@.block_owner_deletion == owner.block_owner_deletion,
{
    assert(manifest@.labels =~= Seq::new(
        manifest.labels@.len(),
        |i: int| (manifest.labels@[i].0@, manifest.labels@[i].1@),
    ));
    assert(manifest@.data =~= Seq::new(
        manifest.data@.len(),
        |i: int| (manifest.data@[i].0@, manifest.data@[i].1@),
    ));
}

} // verus!

//! Keeping a role in Zitadel in sync with its resource.

use vstd::prelude::*;
use vstd::string::*;

use crate::failure::{context_keeps_auth_errors, outcome, Failure, FailureView, CONFLICT};
use crate::json::{Json, JsonView};
use crate::text::{is_text, non_empty, opt_view, same_non_empty};
use crate::zitadel::{
    fails_with, first_role, outcome_of_list, role_found, the_first_role_of_the_key_is_found,
    AnswerKind, Body, BodyView, Call, CallView, Method, ProjectClient, Reply, Role,
};

verus! {

/// Where the sync of a role stands.
#[derive(Debug)]
pub enum RoleSync {
    /// To look for the role.
    Find,
    /// To create it.
    Create,
    /// To give it the display name and group.
    Update,
    /// Done; tells whether Zitadel was changed.
    Done(Result<bool, Failure>),
}

/// Where the sync of a role stands, as seen by contracts.
#[verifier::ext_equal]
pub enum RoleState {
    Find,
    Create,
    Update,
    Done(Result<bool, FailureView>),
}

impl View for RoleSync {
    type V = RoleState;

    open spec fn view(&self) -> RoleState {
        match *self {
            RoleSync::Find => RoleState::Find,
            RoleSync::Create => RoleState::Create,
            RoleSync::Update => RoleState::Update,
            RoleSync::Done(result) => RoleState::Done(outcome(result)),
        }
    }
}

/// Whether a role has this display name and group already; an empty group is
/// an absent one.
pub open spec fn up_to_date(role: Role, display_name: Seq<char>, group: Option<Seq<char>>) -> bool {
    opt_view(role.display_name) == Some(display_name) && non_empty(opt_view(role.group))
        == non_empty(group)
}

/// Whether a role has this display name and group already.
pub fn is_up_to_date(role: &Role, display_name: &str, group: &Option<String>) -> (r: bool)
    ensures
        r == up_to_date(*role, display_name@, opt_view(*group)),
{
    is_text(&role.display_name, display_name) && same_non_empty(&role.group, group)
}

impl RoleState {
    /// Whether `reply` answers what is asked in this state.
    pub open spec fn expects(self, reply: Reply) -> bool {
        match self {
            RoleState::Find => reply is Roles,
            RoleState::Create => reply is Done,
            RoleState::Update => reply is Done,
            RoleState::Done(_) => false,
        }
    }

    /// What is asked of Zitadel in this state.
    pub open spec fn asks(
        self,
        client: ProjectClient,
        key: Seq<char>,
        display_name: Seq<char>,
        group: Option<Seq<char>>,
    ) -> Option<CallView> {
        match self {
            RoleState::Find => Some(client.role_search(key)),
            RoleState::Create => Some(client.role_creation(key, display_name, group)),
            RoleState::Update => Some(client.role_update(key, display_name, group)),
            RoleState::Done(_) => None,
        }
    }

    /// Where the sync stands after `reply`.
    pub open spec fn after(
        self,
        key: Seq<char>,
        display_name: Seq<char>,
        group: Option<Seq<char>>,
        reply: Reply,
    ) -> RoleState {
        match (self, reply) {
            (RoleState::Find, Reply::Roles(listing)) => match role_found(
                key,
                outcome_of_list(listing),
            ) {
                Ok(Some(role)) => if up_to_date(role, display_name, group) {
                    RoleState::Done(Ok(false))
                } else {
                    RoleState::Update
                },
                Ok(None) => RoleState::Create,
                Err(failure) => RoleState::Done(Err(failure)),
            },
            (RoleState::Create, Reply::Done(reply)) => match outcome(reply) {
                Ok(_) => RoleState::Done(Ok(true)),
                Err(failure) => if failure.has_status(CONFLICT) {
                    RoleState::Done(Ok(false))
                } else {
                    RoleState::Done(Err(failure.within("creating role"@)))
                },
            },
            (RoleState::Update, Reply::Done(reply)) => match outcome(reply) {
                Ok(_) => RoleState::Done(Ok(true)),
                Err(failure) => RoleState::Done(Err(failure.within("updating role"@))),
            },
            _ => self,
        }
    }

    /// An upper bound on the requests that are still to be made.
    pub open spec fn requests_left(self) -> nat {
        match self {
            RoleState::Find => 2,
            RoleState::Create => 1,
            RoleState::Update => 1,
            RoleState::Done(_) => 0,
        }
    }
}

impl ProjectClient {
    /// The request that creates the role.
    pub open spec fn role_creation(
        self,
        key: Seq<char>,
        display_name: Seq<char>,
        group: Option<Seq<char>>,
    ) -> CallView {
        CallView {
            method: Method::Post,
            answer: AnswerKind::Done,
            path: self.project_path() + "/roles"@,
            body: Some(
                BodyView::Json(
                    JsonView::Object(
                        seq![
                            ("roleKey"@, JsonView::Text(key)),
                            ("displayName"@, JsonView::Text(display_name)),
                            ("group"@, JsonView::optional(group)),
                        ],
                    ),
                ),
            ),
        }
    }

    /// The request that gives the role its display name and group.
    pub open spec fn role_update(
        self,
        key: Seq<char>,
        display_name: Seq<char>,
        group: Option<Seq<char>>,
    ) -> CallView {
        CallView {
            method: Method::Put,
            answer: AnswerKind::Done,
            path: self.role_path(key),
            body: Some(
                BodyView::Json(
                    JsonView::Object(
                        seq![
                            ("displayName"@, JsonView::Text(display_name)),
                            ("group"@, JsonView::optional(group)),
                        ],
                    ),
                ),
            ),
        }
    }

    fn create_role_call(&self, key: &str, display_name: &str, group: &Option<String>) -> (r: Call)
        ensures
            r@ == self.role_creation(key@, display_name@, opt_view(*group)),
    {
        let body = Json::object().with("roleKey", Json::text(key)).with(
            "displayName",
            Json::text(display_name),
        ).with("group", Json::optional(group));
        assert(body@->Object_0 =~= seq![
            ("roleKey"@, JsonView::Text(key@)),
            ("displayName"@, JsonView::Text(display_name@)),
            ("group"@, JsonView::optional(opt_view(*group))),
        ]);
        Call {
            method: Method::Post,
            answer: AnswerKind::Done,
            path: self.path_of_project().concat("/roles"),
            body: Some(Body::Json(body)),
        }
    }

    fn update_role_call(&self, key: &str, display_name: &str, group: &Option<String>) -> (r: Call)
        ensures
            r@ == self.role_update(key@, display_name@, opt_view(*group)),
    {
        let body = Json::object().with("displayName", Json::text(display_name)).with(
            "group",
            Json::optional(group),
        );
        assert(body@->Object_0 =~= seq![
            ("displayName"@, JsonView::Text(display_name@)),
            ("group"@, JsonView::optional(opt_view(*group))),
        ]);
        Call {
            method: Method::Put,
            answer: AnswerKind::Done,
            path: self.path_of_role(key),
            body: Some(Body::Json(body)),
        }
    }

    /// Ensures that a role with a given key, display name and group exists.
    /// This is how the sync begins.
    pub fn sync_role() -> (r: RoleSync)
        ensures
            r@ == RoleState::Find,
    {
        RoleSync::Find
    }
}

impl RoleSync {
    /// What is to be asked of Zitadel next, nothing if the sync is done.
    pub fn request(
        &self,
        client: &ProjectClient,
        key: &str,
        display_name: &str,
        group: &Option<String>,
    ) -> (r: Option<Call>)
        ensures
            match r {
                Some(call) => self@.asks(*client, key@, display_name@, opt_view(*group)) == Some(
                    call@,
                ),
                None => self@.asks(*client, key@, display_name@, opt_view(*group)) is None,
            },
    {
        match self {
            RoleSync::Find => Some(client.find_role_call(key)),
            RoleSync::Create => Some(client.create_role_call(key, display_name, group)),
            RoleSync::Update => Some(client.update_role_call(key, display_name, group)),
            RoleSync::Done(_) => None,
        }
    }

    /// Takes what came of the request. A creation that conflicts lost a race
    /// with a concurrent one: the update is left to the next reconcile.
    pub fn step(
        self,
        key: &str,
        display_name: &str,
        group: &Option<String>,
        reply: Reply,
    ) -> (r: RoleSync)
        requires
            self@.expects(reply),
        ensures
            r@ == self@.after(key@, display_name@, opt_view(*group), reply),
    {
        match (self, reply) {
            (RoleSync::Find, Reply::Roles(listing)) => {
                match ProjectClient::find_role(key, listing) {
                    Ok(Some(role)) => {
                        if is_up_to_date(&role, display_name, group) {
                            RoleSync::Done(Ok(false))
                        } else {
                            RoleSync::Update
                        }
                    },
                    Ok(None) => RoleSync::Create,
                    Err(failure) => RoleSync::Done(Err(failure)),
                }
            },
            (RoleSync::Create, Reply::Done(reply)) => match reply {
                Ok(_) => RoleSync::Done(Ok(true)),
                Err(failure) => {
                    if failure.has_status(CONFLICT) {
                        RoleSync::Done(Ok(false))
                    } else {
                        RoleSync::Done(Err(failure.context("creating role")))
                    }
                },
            },
            (RoleSync::Update, Reply::Done(reply)) => match reply {
                Ok(_) => RoleSync::Done(Ok(true)),
                Err(failure) => RoleSync::Done(Err(failure.context("updating role"))),
            },
            (sync, _) => sync,
        }
    }
}

// --- Laws

/// The sync of a role asks until it is done, and every answer brings it
/// closer to its end: it makes two requests at most.
pub proof fn role_sync_ends(
    state: RoleState,
    client: ProjectClient,
    key: Seq<char>,
    display_name: Seq<char>,
    group: Option<Seq<char>>,
    reply: Reply,
)
    ensures
        state is Done <==> state.asks(client, key, display_name, group) is None,
        state.asks(client, key, display_name, group) matches Some(call) ==> (state.expects(reply)
            <==> reply.kind() == call.answer),
        state.expects(reply) ==> state.after(key, display_name, group, reply).requests_left()
            < state.requests_left(),
        RoleState::Find.requests_left() == 2,
{
}

/// Syncs of a role converge: once Zitadel reports the display name and group
/// that were asked for, the next sync changes nothing.
pub proof fn role_syncs_converge(
    listing: Vec<Role>,
    role: Role,
    key: Seq<char>,
    display_name: Seq<char>,
    group: Option<Seq<char>>,
)
    requires
        first_role(listing@, key) == Some(role),
        opt_view(role.display_name) == Some(display_name),
        non_empty(opt_view(role.group)) == non_empty(group),
    ensures
        RoleState::Find.after(key, display_name, group, Reply::Roles(Ok(listing)))
            == RoleState::Done(Ok(false)),
{
}

/// A role sync that ends well says that it changed Zitadel exactly if a
/// creation or an update succeeded.
pub proof fn role_changes_are_reported(
    state: RoleState,
    key: Seq<char>,
    display_name: Seq<char>,
    group: Option<Seq<char>>,
    reply: Reply,
)
    requires
        state.expects(reply),
    ensures
        state.after(key, display_name, group, reply) matches RoleState::Done(Ok(changed)) ==> (
        changed <==> !(state is Find) && reply->Done_0 is Ok),
{
}

/// Losing a race with a concurrent creation is no failure.
pub proof fn conflicts_are_no_failures(
    key: Seq<char>,
    display_name: Seq<char>,
    group: Option<Seq<char>>,
    failure: Failure,
)
    requires
        failure@.has_status(CONFLICT),
    ensures
        RoleState::Create.after(key, display_name, group, Reply::Done(Err(failure)))
            == RoleState::Done(Ok(false)),
{
}

/// A rejected credential surfaces: if any request of a role sync fails
/// because Zitadel does not accept the credential, so does the sync.
pub proof fn role_rejections_surface(
    state: RoleState,
    key: Seq<char>,
    display_name: Seq<char>,
    group: Option<Seq<char>>,
    reply: Reply,
    failure: FailureView,
)
    requires
        state.expects(reply),
        fails_with(reply, failure),
        failure.is_auth(),
    ensures
        state.after(key, display_name, group, reply) matches RoleState::Done(Err(e))
            && e.is_auth(),
{
    context_keeps_auth_errors(failure, "listing roles"@);
    context_keeps_auth_errors(failure, "creating role"@);
    context_keeps_auth_errors(failure, "updating role"@);
}

/// What a sync of a role does about the role that Zitadel lists first under
/// the key: nothing exactly if it has the display name and the group, an empty
/// group being none; else it is updated. If there is none, one is created.
pub proof fn roles_are_brought_in_line(
    listing: Vec<Role>,
    key: Seq<char>,
    display_name: Seq<char>,
    group: Option<Seq<char>>,
    i: int,
)
    ensures
        ({
            let next = RoleState::Find.after(key, display_name, group, Reply::Roles(Ok(listing)));
            &&& (0 <= i < listing@.len() && listing@[i].key is Some && listing@[i].key->0@ == key
                && (forall|j: int|
                0 <= j < i ==> !((#[trigger] listing@[j]).key is Some && listing@[j].key->0@
                    == key))) ==> next == {
                let role = listing@[i];
                let same_name = role.display_name is Some && role.display_name->0@ == display_name;
                let same_group = match (role.group, group) {
                    (Some(have), Some(want)) => have@ == want,
                    (Some(have), None) => have@.len() == 0,
                    (None, Some(want)) => want.len() == 0,
                    (None, None) => true,
                };
                if same_name && same_group {
                    RoleState::Done(Ok(false))
                } else {
                    RoleState::Update
                }
            }
            &&& (forall|j: int|
                0 <= j < listing@.len() ==> !((#[trigger] listing@[j]).key is Some
                    && listing@[j].key->0@ == key)) ==> next == RoleState::Create
        }),
{
    the_first_role_of_the_key_is_found(listing@, key);
    match first_role(listing@, key) {
        Some(role) => {
            let k = choose|k: int|
                {
                    &&& 0 <= k < listing@.len()
                    &&& #[trigger] listing@[k] == role
                    &&& role.key is Some && role.key->0@ == key
                    &&& forall|j: int|
                        0 <= j < k ==> !((#[trigger] listing@[j]).key is Some && listing@[j].key->0@
                            == key)
                };
            if 0 <= i < listing@.len() && listing@[i].key is Some && listing@[i].key->0@ == key && (
            forall|j: int|
                0 <= j < i ==> !((#[trigger] listing@[j]).key is Some && listing@[j].key->0@
                    == key)) {
                assert(!(k < i));
                assert(!(i < k));
                match (role.group, group) {
                    (Some(have), Some(want)) => {
                        if have@.len() == 0 && want.len() == 0 {
                            assert(have@ =~= want);
                        }
                    },
                    _ => {},
                }
            }
        },
        None => {},
    }
}

/// What is asked for a role names its key, display name and group as they are
/// given; a group that is not given is null.
pub proof fn roles_are_sent_as_they_are_given(
    client: ProjectClient,
    key: Seq<char>,
    display_name: Seq<char>,
    group: Option<Seq<char>>,
)
    ensures
        RoleState::Find.asks(client, key, display_name, group) == Some(client.role_search(key)),
        ({
            let given_group = match group {
                Some(text) => JsonView::Text(text),
                None => JsonView::Null,
            };
            &&& RoleState::Create.asks(client, key, display_name, group) matches Some(call)
            &&& call.method == Method::Post
            &&& call.answer == AnswerKind::Done
            &&& call.path == "projects/"@ + client.project_id@ + "/roles"@
            &&& call.body matches Some(BodyView::Json(JsonView::Object(members)))
            &&& members == seq![
                ("roleKey"@, JsonView::Text(key)),
                ("displayName"@, JsonView::Text(display_name)),
                ("group"@, given_group),
            ]
        }),
        ({
            let given_group = match group {
                Some(text) => JsonView::Text(text),
                None => JsonView::Null,
            };
            &&& RoleState::Update.asks(client, key, display_name, group) matches Some(call)
            &&& call.method == Method::Put
            &&& call.answer == AnswerKind::Done
            &&& call.path == "projects/"@ + client.project_id@ + "/roles/"@ + key
            &&& call.body matches Some(BodyView::Json(JsonView::Object(members)))
            &&& members == seq![
                ("displayName"@, JsonView::Text(display_name)),
                ("group"@, given_group),
            ]
        }),
{
}

/// What comes of a creation or an update is what Zitadel says: a success is a
/// change, a failure says what was being done and keeps the answer, and only a
/// creation of what is already there is neither.
pub proof fn role_replies_are_taken_at_their_word(
    key: Seq<char>,
    display_name: Seq<char>,
    group: Option<Seq<char>>,
    failure: Failure,
)
    ensures
        RoleState::Create.after(key, display_name, group, Reply::Done(Ok(()))) == RoleState::Done(
            Ok(true),
        ),
        RoleState::Update.after(key, display_name, group, Reply::Done(Ok(()))) == RoleState::Done(
            Ok(true),
        ),
        (failure@.http matches Some(answer) && answer.0 == 409) ==> RoleState::Create.after(
            key,
            display_name,
            group,
            Reply::Done(Err(failure)),
        ) == RoleState::Done(Ok(false)),
        !(failure@.http matches Some(answer) && answer.0 == 409) ==> (RoleState::Create.after(
            key,
            display_name,
            group,
            Reply::Done(Err(failure)),
        ) matches RoleState::Done(Err(e)) && e.http == failure@.http && e.chain
            == seq!["creating role"@] + failure@.chain),
        RoleState::Update.after(
            key,
            display_name,
            group,
            Reply::Done(Err(failure)),
        ) matches RoleState::Done(Err(e)) && e.http == failure@.http && e.chain
            == seq!["updating role"@] + failure@.chain,
        RoleState::Find.after(
            key,
            display_name,
            group,
            Reply::Roles(Err(failure)),
        ) matches RoleState::Done(Err(e)) && e.http == failure@.http && e.chain
            == seq!["listing roles"@] + failure@.chain,
{
}

/// Contracts speak of the sync of a role as it is.
pub proof fn role_syncs_are_seen_as_they_are(sync: RoleSync)
    ensures
        match sync {
            RoleSync::Find => sync@ == RoleState::Find,
            RoleSync::Create => sync@ == RoleState::Create,
            RoleSync::Update => sync@ == RoleState::Update,
            RoleSync::Done(Ok(changed)) => sync@ == RoleState::Done(Ok(changed)),
            RoleSync::Done(Err(failure)) => sync@ == RoleState::Done(Err(failure@)),
        },
{
}

} // verus!

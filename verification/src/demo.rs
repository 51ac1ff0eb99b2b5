use vstd::prelude::*;

use crate::errors::RepoError;
use crate::laws::{lemma_remove_fresh_push, lemma_round_trip, lemma_update_fresh_push};
use crate::repository_trait::RepositoryTrait;
use crate::service_trait::ServiceTrait;
use crate::user_model::{views_of, User, UserView};
use crate::user_service::Service;
use crate::rows::{has_id, unique_ids};

verus! {

/// The username derived from a fresh identifier.
pub open spec fn spec_username(id: Seq<char>) -> Seq<char> {
    "user-"@ + id
}

/// The email address derived from a fresh identifier.
pub open spec fn spec_email(id: Seq<char>) -> Seq<char> {
    id + "@example.com"@
}

/// A mutable field after the demonstration's update step.
pub open spec fn spec_updated(s: Seq<char>) -> Seq<char> {
    "updated-"@ + s
}

/// The user first created by the demonstration for the identifier `id`.
pub open spec fn initial_view(id: Seq<char>) -> UserView {
    UserView { id: id, username: spec_username(id), email: spec_email(id) }
}

/// That user after the demonstration's update step.
pub open spec fn updated_view(id: Seq<char>) -> UserView {
    UserView {
        id: id,
        username: spec_updated(spec_username(id)),
        email: spec_updated(spec_email(id)),
    }
}

/// The shape of a hyphenated, lower-case version-4 identifier: 36
/// characters, hyphens at indices 8, 13, 18 and 23, the version digit
/// `4`, and a variant character among `8`, `9`, `a` and `b`.
pub open spec fn uuid_shape(s: Seq<char>) -> bool {
    &&& s.len() == 36
    &&& s[8] == '-'
    &&& s[13] == '-'
    &&& s[18] == '-'
    &&& s[23] == '-'
    &&& s[14] == '4'
    &&& (s[19] == '8' || s[19] == '9' || s[19] == 'a' || s[19] == 'b')
}

/// Relies on uuid::Uuid::new_v4 and its hyphenated string rendering: a
/// fresh random version-4 identifier. Every outcome has the hyphenated
/// shape — the rendering fixes the hyphen layout, and the version and
/// variant bits are masked in unconditionally.
#[verifier::external_body]
pub(crate) fn generate_random_uuid() -> (r: String)
    ensures
        uuid_shape(r@),
{
    uuid::Uuid::new_v4().to_string()
}

/// The deterministic username for an identifier.
pub fn generate_username(id: &str) -> (r: String)
    ensures
        r@ == spec_username(id@),
{
    let mut s = "user-".to_owned();
    s.append(id);
    s
}

/// The deterministic email address for an identifier.
pub fn generate_email(id: &str) -> (r: String)
    ensures
        r@ == spec_email(id@),
{
    let mut s = id.to_owned();
    s.append("@example.com");
    s
}

/// A mutable field as the demonstration's update step rewrites it.
fn prefix_updated(s: &str) -> (r: String)
    ensures
        r@ == spec_updated(s@),
{
    let mut p = "updated-".to_owned();
    p.append(s);
    p
}

/// What the demonstration observed: the created row as the store confirmed
/// it, the row fetched back by its identifier, the row returned by the
/// update, and the listing taken after the delete.
pub struct DemoReport {
    pub created: User,
    pub fetched: User,
    pub updated: User,
    pub remaining: Vec<User>,
}

/// Runs the fixed demonstration script with a caller-supplied identifier:
/// create a user derived from the identifier, fetch it back, rewrite both
/// mutable fields with the `updated-` prefix, delete it, then list every
/// remaining user. The script stops at the first failing step and hands
/// that step's error back; a completed run leaves the store exactly as it
/// found it.
pub fn example_crud_with_id<R: RepositoryTrait>(service: &mut Service<R>, id: String) -> (r:
    Result<DemoReport, RepoError>)
    requires
        unique_ids(old(service).rows()),
    ensures
        unique_ids(final(service).rows()),
        final(service).infallible() == old(service).infallible(),
        old(service).infallible() && !has_id(old(service).rows(), id@) ==> r is Ok,
        has_id(old(service).rows(), id@) ==> r is Err
            && final(service).rows() == old(service).rows(),
        r matches Ok(rep) ==> !has_id(old(service).rows(), id@)
            && rep.created@ == initial_view(id@)
            && rep.fetched@ == initial_view(id@)
            && rep.updated@ == updated_view(id@)
            && views_of(rep.remaining@) == old(service).rows()
            && final(service).rows() == old(service).rows(),
        r is Err ==> final(service).rows() == old(service).rows()
            || final(service).rows() == old(service).rows().push(initial_view(id@))
            || final(service).rows() == old(service).rows().push(updated_view(id@)),
{
    let ghost initial_rows = old(service).rows();
    let username = generate_username(id.as_str());
    let email = generate_email(id.as_str());
    let payload = User { id, username, email };
    let ghost u0 = payload@;

    let created = match service.create(payload) {
        Err(e) => {
            return Err(e);
        },
        Ok(c) => c,
    };
    proof {
        lemma_round_trip(initial_rows, u0);
    }

    let fetched = match service.get_by_id(created.id.clone()) {
        Err(e) => {
            return Err(e);
        },
        Ok(u) => u,
    };
    proof {
        assert(fetched@ == u0);
    }

    let updated_username = prefix_updated(fetched.username.as_str());
    let updated_email = prefix_updated(fetched.email.as_str());
    let update_payload = User {
        id: fetched.id.clone(),
        username: updated_username,
        email: updated_email,
    };
    let ghost u1 = update_payload@;
    proof {
        assert(u1 == updated_view(u0.id));
        lemma_update_fresh_push(initial_rows, u0, u1);
    }

    let updated = match service.update(update_payload) {
        Err(e) => {
            return Err(e);
        },
        Ok(u) => u,
    };

    proof {
        lemma_remove_fresh_push(initial_rows, u1);
    }
    match service.delete(updated.id.clone()) {
        Err(e) => {
            return Err(e);
        },
        Ok(_) => {},
    }

    let remaining = match service.get_all() {
        Err(e) => {
            return Err(e);
        },
        Ok(list) => list,
    };

    Ok(DemoReport { created, fetched, updated, remaining })
}

/// Mirrors the demonstration driver: draw a fresh random identifier and
/// run the script with it. The created row's own identifier anchors what
/// the report must hold; a completed run leaves the store as it found it.
pub fn example_crud<R: RepositoryTrait>(service: &mut Service<R>) -> (r: Result<
    DemoReport,
    RepoError,
>)
    requires
        unique_ids(old(service).rows()),
    ensures
        unique_ids(final(service).rows()),
        final(service).infallible() == old(service).infallible(),
        old(service).infallible() && old(service).rows().len() == 0 ==> r is Ok,
        r matches Ok(rep) ==> !has_id(old(service).rows(), rep.created@.id)
            && rep.created@ == initial_view(rep.created@.id)
            && rep.fetched@ == rep.created@
            && rep.updated@ == updated_view(rep.created@.id)
            && views_of(rep.remaining@) == old(service).rows()
            && final(service).rows() == old(service).rows()
            && uuid_shape(rep.created@.id),
        r is Err ==> final(service).rows() == old(service).rows()
            || (exists|idv: Seq<char>| final(service).rows() == old(service).rows().push(
            #[trigger] initial_view(idv)))
            || (exists|idv: Seq<char>| final(service).rows() == old(service).rows().push(
            #[trigger] updated_view(idv))),
{
    let id = generate_random_uuid();
    let ghost idv = id@;
    let r = example_crud_with_id(service, id);
    proof {
        if r is Err {
            assert(service.rows() == old(service).rows() || service.rows() == old(
                service,
            ).rows().push(initial_view(idv)) || service.rows() == old(service).rows().push(
                updated_view(idv),
            ));
        }
    }
    r
}

} // verus!

//! What holds of the repository operations taken together.
//!
//! The statements are over the rows as a map from identifier to content and
//! over the relations in which the contracts of
//! [`BlogRepository`](crate::data::repository::BlogRepository) are written:
//! [`created`], [`updated`], [`deleted`], [`found`] and [`lists`].

use crate::data::model::{BlogView, Content};
use crate::data::repository::{created, deleted, found, updated, BlogRepoError};
use crate::data::table::{holds, lists};
use vstd::prelude::*;

verus! {

/// After a creation, every listing of the rows shows exactly one blog under
/// the new identifier: the created blog, with the owner and name that were
/// submitted. The new identifier differs from that of every blog stored
/// before.
pub proof fn create_then_get_all(
    before: Map<u128, Content>,
    create: Content,
    blog: BlogView,
    after: Map<u128, Content>,
    listing: Seq<BlogView>,
)
    requires
        created(before, create, blog, after),
        lists(listing, after),
    ensures
        blog.user_id == create.user_id,
        blog.name == create.name,
        forall|other: u128| before.contains_key(other) ==> other != blog.blog_id,
        exists|i: int|
            {
                &&& 0 <= i < listing.len()
                &&& #[trigger] listing[i] == blog
                &&& forall|j: int|
                    0 <= j < listing.len() && j != i ==> listing[j].blog_id != blog.blog_id
            },
{
    let id = blog.blog_id;
    assert(after.contains_key(id));
    assert(holds(listing, id));
    let i = choose|i: int| 0 <= i < listing.len() && listing[i].blog_id == id;
    assert(after.contains_key(listing[i].blog_id) && after[listing[i].blog_id]
        == listing[i].content());
    assert(listing[i] == blog);
    assert forall|j: int| 0 <= j < listing.len() && j != i implies listing[j].blog_id != id by {
        if j < i {
            assert(listing[j].blog_id != listing[i].blog_id);
        } else {
            assert(listing[i].blog_id != listing[j].blog_id);
        }
    }
}

/// If no blog stored before the creation had the owner and name that were
/// submitted, every listing of the rows after it shows exactly one blog with
/// that owner and name: the created one.
pub proof fn create_then_get_all_by_content(
    before: Map<u128, Content>,
    create: Content,
    blog: BlogView,
    after: Map<u128, Content>,
    listing: Seq<BlogView>,
)
    requires
        created(before, create, blog, after),
        lists(listing, after),
        forall|other: u128| before.contains_key(other) ==> before[other] != create,
    ensures
        exists|i: int|
            {
                &&& 0 <= i < listing.len()
                &&& #[trigger] listing[i] == blog
                &&& forall|j: int|
                    0 <= j < listing.len() && j != i ==> (#[trigger] listing[j]).content()
                        != create
            },
{
    create_then_get_all(before, create, blog, after, listing);
    let i = choose|i: int|
        {
            &&& 0 <= i < listing.len()
            &&& #[trigger] listing[i] == blog
            &&& forall|j: int|
                0 <= j < listing.len() && j != i ==> listing[j].blog_id != blog.blog_id
        };
    assert forall|j: int| 0 <= j < listing.len() && j != i implies (#[trigger] listing[j]).content()
        != create by {
        let other = listing[j].blog_id;
        assert(after.contains_key(other) && after[other] == listing[j].content());
        assert(other != blog.blog_id);
        assert(before.contains_key(other));
    }
}

/// A lookup of an identifier under which nothing is stored fails with
/// [`BlogRepoError::NoBlogById`]; so does a deletion of it, which changes
/// nothing.
pub proof fn missing_id_is_no_blog(
    before: Map<u128, Content>,
    id: u128,
    result: Result<BlogView, BlogRepoError>,
    after: Map<u128, Content>,
)
    requires
        !before.contains_key(id),
        deleted(before, id, result, after),
    ensures
        found(before, id) == Err::<BlogView, BlogRepoError>(BlogRepoError::NoBlogById),
        result == Err::<BlogView, BlogRepoError>(BlogRepoError::NoBlogById),
        after == before,
{
}

/// After an update of the blog under `id`, a lookup of `id` gives the blog
/// that the update handed back: the identifier is `id` as before, owner and
/// name are those of the update. Every other lookup gives what it gave
/// before.
pub proof fn update_then_get_one(
    before: Map<u128, Content>,
    id: u128,
    update: Content,
    blog: BlogView,
    after: Map<u128, Content>,
)
    requires
        updated(before, id, update, blog, after),
    ensures
        found(after, id) == Ok::<BlogView, BlogRepoError>(blog),
        blog == (BlogView { blog_id: id, user_id: update.user_id, name: update.name }),
        forall|other: u128| other != id ==> found(after, other) == found(before, other),
{
}

/// A deletion of the blog stored under `id` hands back the row as it was
/// stored before, and a lookup of `id` after it fails with
/// [`BlogRepoError::NoBlogById`]. Every other lookup gives what it gave
/// before.
pub proof fn delete_then_get_one(
    before: Map<u128, Content>,
    id: u128,
    result: Result<BlogView, BlogRepoError>,
    after: Map<u128, Content>,
)
    requires
        before.contains_key(id),
        deleted(before, id, result, after),
    ensures
        result == Ok::<BlogView, BlogRepoError>(
            BlogView { blog_id: id, user_id: before[id].user_id, name: before[id].name },
        ),
        found(after, id) == Err::<BlogView, BlogRepoError>(BlogRepoError::NoBlogById),
        forall|other: u128| other != id ==> found(after, other) == found(before, other),
{
}

/// Two creations in a row from the same owner and name store two blogs under
/// two different identifiers: the second neither replaces the first nor is
/// merged with it, and both are found afterwards.
pub proof fn create_twice(
    before: Map<u128, Content>,
    create: Content,
    first: BlogView,
    between: Map<u128, Content>,
    second: BlogView,
    after: Map<u128, Content>,
)
    requires
        created(before, create, first, between),
        created(between, create, second, after),
    ensures
        first.blog_id != second.blog_id,
        first.content() == create,
        second.content() == create,
        found(after, first.blog_id) == Ok::<BlogView, BlogRepoError>(first),
        found(after, second.blog_id) == Ok::<BlogView, BlogRepoError>(second),
        forall|other: u128|
            other != first.blog_id && other != second.blog_id ==> found(after, other) == found(
                before,
                other,
            ),
{
}

} // verus!

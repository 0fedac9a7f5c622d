//! The blog endpoints: each calls the repository and passes the result on,
//! an error wrapped into the application's error.

use crate::data::model::{Blog, CreateBlog, UpdateBlog};
use crate::data::repository::{
    created, deleted, found, updated, BlogRepoError, BlogRepository,
};
use crate::data::table::{blog_views, lists};
use crate::utils::{passed_on, AppError};
use vstd::prelude::*;

verus! {

/// Answer to `GET /blog/all`: every stored blog, once.
pub fn get_all<R: BlogRepository>(blog_repo: &R) -> (response: Result<Vec<Blog>, AppError>)
    ensures
        response matches Ok(all) && lists(blog_views(all@), blog_repo.rows()),
{
    match blog_repo.get_all() {
        Ok(all) => Ok(all),
        Err(error) => Err(AppError::from(error)),
    }
}

/// Answer to `GET /blog/{id}`: the blog stored under `id`, or the error that
/// none is.
pub fn get_one<R: BlogRepository>(blog_repo: &R, id: u128) -> (response: Result<Blog, AppError>)
    ensures
        passed_on(response) == found(blog_repo.rows(), id),
{
    match blog_repo.get_one(id) {
        Ok(blog) => Ok(blog),
        Err(error) => Err(AppError::from(error)),
    }
}

/// Answer to `POST /blog/new`: the blog created from `create`.
///
/// A success stores the new blog under an identifier that was not in use.
/// The only failure wraps [`BlogRepoError::ExistsById`]: the generated
/// identifier was taken, and nothing has changed.
pub fn create_one<R: BlogRepository>(blog_repo: &mut R, create: CreateBlog) -> (response: Result<
    Blog,
    AppError,
>)
    ensures
        match response {
            Ok(blog) => created(old(blog_repo).rows(), create@, blog@, final(blog_repo).rows()),
            Err(error) => {
                &&& error == AppError::BlogRepo(BlogRepoError::ExistsById)
                &&& final(blog_repo).rows() == old(blog_repo).rows()
            },
        },
{
    match blog_repo.create_one(create) {
        Ok(blog) => Ok(blog),
        Err(error) => Err(AppError::from(error)),
    }
}

/// Answer to `POST /blog/{id}`: the blog under `id` with owner and name
/// replaced by those of `update`.
///
/// The caller sees to it that a blog is stored under `id`.
pub fn update_one<R: BlogRepository>(blog_repo: &mut R, id: u128, update: UpdateBlog) -> (response:
    Result<Blog, AppError>)
    requires
        old(blog_repo).rows().contains_key(id),
    ensures
        response matches Ok(blog) && updated(
            old(blog_repo).rows(),
            id,
            update@,
            blog@,
            final(blog_repo).rows(),
        ),
{
    match blog_repo.update_one(id, update) {
        Ok(blog) => Ok(blog),
        Err(error) => Err(AppError::from(error)),
    }
}

/// Answer to `DELETE /blog/{id}`: the blog that was stored under `id`, now
/// deleted, or the error that none was.
pub fn delete_one<R: BlogRepository>(blog_repo: &mut R, id: u128) -> (response: Result<
    Blog,
    AppError,
>)
    ensures
        deleted(old(blog_repo).rows(), id, passed_on(response), final(blog_repo).rows()),
{
    match blog_repo.delete_one(id) {
        Ok(blog) => Ok(blog),
        Err(error) => Err(AppError::from(error)),
    }
}

} // verus!

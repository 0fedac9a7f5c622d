//! The repository of blogs: what every implementation owes its callers, and
//! the implementation over a [`BlogTable`].

use crate::data::model::{Blog, BlogView, Content, CreateBlog, UpdateBlog};
use crate::data::table::{blog_views, lists, BlogTable};
use vstd::prelude::*;

verus! {

/// Error type returned on blog repository error.
#[derive(Debug, Clone, Copy, PartialEq, Eq, Structural)]
pub enum BlogRepoError {
    /// Blog already exists by identifier.
    ExistsById,
    /// No blog found by identifier.
    NoBlogById,
}

impl BlogRepoError {
    /// The text of [`BlogRepoError::message`].
    pub open spec fn text(self) -> Seq<char> {
        match self {
            BlogRepoError::ExistsById => "blog already exists by id"@,
            BlogRepoError::NoBlogById => "no blog by id"@,
        }
    }

    /// What the error says to a reader.
    pub fn message(&self) -> (text: String)
        ensures
            text@ == self.text(),
    {
        match self {
            BlogRepoError::ExistsById => "blog already exists by id".to_owned(),
            BlogRepoError::NoBlogById => "no blog by id".to_owned(),
        }
    }
}

/// Blog repository result type.
pub type BlogRepoResult<T> = Result<T, BlogRepoError>;

/// What a lookup of `id` in `rows` gives: the blog stored under it, or
/// [`BlogRepoError::NoBlogById`].
pub open spec fn found(rows: Map<u128, Content>, id: u128) -> Result<BlogView, BlogRepoError> {
    if rows.contains_key(id) {
        Ok(BlogView::of(id, rows[id]))
    } else {
        Err(BlogRepoError::NoBlogById)
    }
}

/// The value of a result that carries a blog.
pub open spec fn outcome(result: BlogRepoResult<Blog>) -> Result<BlogView, BlogRepoError> {
    match result {
        Ok(blog) => Ok(blog@),
        Err(error) => Err(error),
    }
}

/// A creation from `create` that stored `blog` and took the rows from
/// `before` to `after`: the blog carries the submitted content under an
/// identifier that was not in use, and its row is the one row added.
pub open spec fn created(
    before: Map<u128, Content>,
    create: Content,
    blog: BlogView,
    after: Map<u128, Content>,
) -> bool {
    &&& !before.contains_key(blog.blog_id)
    &&& blog == BlogView::of(blog.blog_id, create)
    &&& after == before.insert(blog.blog_id, create)
}

/// An update of the blog under `id` by `update` that handed back `blog` and
/// took the rows from `before` to `after`: the blog keeps its identifier,
/// carries the content of the update, and its row is the one row changed.
pub open spec fn updated(
    before: Map<u128, Content>,
    id: u128,
    update: Content,
    blog: BlogView,
    after: Map<u128, Content>,
) -> bool {
    &&& before.contains_key(id)
    &&& blog == BlogView::of(id, update)
    &&& after == before.insert(id, update)
}

/// A deletion of the blog under `id` that gave `result` and took the rows
/// from `before` to `after`: the result is what a lookup of `id` gave before,
/// and the row under `id`, if there was one, is the one row removed.
pub open spec fn deleted(
    before: Map<u128, Content>,
    id: u128,
    result: Result<BlogView, BlogRepoError>,
    after: Map<u128, Content>,
) -> bool {
    &&& result == found(before, id)
    &&& after == before.remove(id)
    &&& result is Err ==> after == before
}

/// `id` has the version and variant bits of a randomly generated UUID.
pub open spec fn is_random_id(id: u128) -> bool {
    (id >> 76) & 0xf == 4 && (id >> 62) & 0x3 == 2
}

/// Draws an identifier from `uuid::Uuid::new_v4` and takes its 128-bit value.
///
/// Not proved: the value carries version 4 and the RFC variant, which the
/// generator sets by masking whatever the random source delivered. Nothing is
/// claimed about which value comes back, nor that two calls differ. The
/// generator panics when the operating system's random source fails.
#[verifier::external_body]
fn fresh_id() -> (id: u128)
    ensures
        is_random_id(id),
{
    uuid::Uuid::new_v4().as_u128()
}

/// The row that stores `create` under the identifier `blog_id`.
pub fn blog_with_id(blog_id: u128, create: CreateBlog) -> (blog: Blog)
    ensures
        blog@ == BlogView::of(blog_id, create@),
{
    Blog { blog_id, user_id: create.user_id, name: create.name }
}

/// The row that stores `create` under a freshly drawn random identifier.
pub fn new_blog(create: CreateBlog) -> (blog: Blog)
    ensures
        is_random_id(blog.blog_id),
        blog@ == BlogView::of(blog.blog_id, create@),
{
    blog_with_id(fresh_id(), create)
}

/// Turns the answer of a lookup by identifier into a result: the row if one
/// was found, [`BlogRepoError::NoBlogById`] if none was.
pub fn found_or_no_blog(answer: Option<Blog>) -> (result: BlogRepoResult<Blog>)
    ensures
        result == match answer {
            Some(blog) => Ok::<Blog, BlogRepoError>(blog),
            None => Err::<Blog, BlogRepoError>(BlogRepoError::NoBlogById),
        },
{
    match answer {
        Some(blog) => Ok(blog),
        None => Err(BlogRepoError::NoBlogById),
    }
}

/// Repository with blog data.
///
/// The contracts speak of [`BlogRepository::rows`], the stored blogs as a map
/// from identifier to content.
pub trait BlogRepository {
    /// The stored blogs: content by identifier.
    ///
    /// An implementation says here what it stores, and its operations are
    /// proved against the contracts below. The default is the repository
    /// that stores nothing.
    open spec fn rows(&self) -> Map<u128, Content> {
        Map::empty()
    }

    /// Get all blogs: each stored blog once, in an order the implementation
    /// chooses.
    fn get_all(&self) -> (result: BlogRepoResult<Vec<Blog>>)
        ensures
            result matches Ok(all) && lists(blog_views(all@), self.rows()),
    ;

    /// Find one blog by its identifier.
    fn get_one(&self, id: u128) -> (result: BlogRepoResult<Blog>)
        ensures
            outcome(result) == found(self.rows(), id),
    ;

    /// Create one blog from the provided data, under an identifier that the
    /// repository generates.
    ///
    /// A success stores the new blog under an identifier that was not in use.
    /// The only failure is [`BlogRepoError::ExistsById`]: the generated
    /// identifier was taken, and nothing has changed.
    fn create_one(&mut self, create: CreateBlog) -> (result: BlogRepoResult<Blog>)
        ensures
            match result {
                Ok(blog) => created(old(self).rows(), create@, blog@, final(self).rows()),
                Err(error) => {
                    &&& error == BlogRepoError::ExistsById
                    &&& final(self).rows() == old(self).rows()
                },
            },
    ;

    /// Update one blog which is found by the provided blog identifier: owner
    /// and name are both overwritten.
    ///
    /// The caller sees to it that a blog is stored under `id`.
    fn update_one(&mut self, id: u128, update: UpdateBlog) -> (result: BlogRepoResult<Blog>)
        requires
            old(self).rows().contains_key(id),
        ensures
            result matches Ok(blog) && updated(
                old(self).rows(),
                id,
                update@,
                blog@,
                final(self).rows(),
            ),
    ;

    /// Delete one blog by its identifier and hand back the blog as it was
    /// stored.
    fn delete_one(&mut self, id: u128) -> (result: BlogRepoResult<Blog>)
        ensures
            deleted(old(self).rows(), id, outcome(result), final(self).rows()),
    ;
}

/// Blog repository over a table of its own.
///
/// Each operation is one statement against the table, or two: a load of the
/// whole table for `get_all`; a lookup by identifier for `get_one`; an insert
/// under a generated identifier for `create_one`; an update by identifier for
/// `update_one`; and for `delete_one` a lookup by identifier, whose row is
/// the one handed back, followed by a delete by identifier.
pub struct LocalBlogRepository {
    table: BlogTable,
}

impl LocalBlogRepository {
    /// Creates new local blog repository over `table`.
    pub fn new(table: BlogTable) -> (repo: Self)
        ensures
            repo.rows() == table.rows(),
    {
        Self { table }
    }

    /// Creates one blog from the provided data under the identifier
    /// `blog_id`.
    ///
    /// Fails with [`BlogRepoError::ExistsById`], changing nothing, exactly
    /// when `blog_id` is already stored.
    pub fn create_with_id(&mut self, blog_id: u128, create: CreateBlog) -> (result: BlogRepoResult<
        Blog,
    >)
        ensures
            old(self).rows().contains_key(blog_id) ==> {
                &&& result == Err::<Blog, BlogRepoError>(BlogRepoError::ExistsById)
                &&& final(self).rows() == old(self).rows()
            },
            !old(self).rows().contains_key(blog_id) ==> {
                &&& result matches Ok(blog)
                &&& blog.blog_id == blog_id
                &&& created(old(self).rows(), create@, blog@, final(self).rows())
            },
    {
        let task = blog_with_id(blog_id, create);
        match self.table.insert(task) {
            Some(task) => Ok(task),
            None => Err(BlogRepoError::ExistsById),
        }
    }
}

impl BlogRepository for LocalBlogRepository {
    closed spec fn rows(&self) -> Map<u128, Content> {
        self.table.rows()
    }

    fn get_all(&self) -> (result: BlogRepoResult<Vec<Blog>>) {
        let data = self.table.load();
        Ok(data)
    }

    fn get_one(&self, id: u128) -> (result: BlogRepoResult<Blog>) {
        found_or_no_blog(self.table.first(id))
    }

    /// The identifier is drawn at random. The creation fails only if the
    /// identifier drawn is already stored: where no stored identifier has
    /// the form of a random one, as in an empty repository, it succeeds.
    fn create_one(&mut self, create: CreateBlog) -> (result: BlogRepoResult<Blog>)
        ensures
            result matches Ok(blog) ==> is_random_id(blog.blog_id),
            result is Err ==> exists|id: u128|
                is_random_id(id) && #[trigger] old(self).rows().contains_key(id),
    {
        let blog_id = fresh_id();
        self.create_with_id(blog_id, create)
    }

    fn update_one(&mut self, id: u128, update: UpdateBlog) -> (result: BlogRepoResult<Blog>) {
        let task = self.table.update(id, update.user_id, update.name);
        Ok(task.unwrap())
    }

    fn delete_one(&mut self, id: u128) -> (result: BlogRepoResult<Blog>) {
        let task = match found_or_no_blog(self.table.first(id)) {
            Ok(task) => task,
            Err(error) => {
                assert(self.rows().remove(id) =~= self.rows());
                return Err(error);
            },
        };
        let _ = self.table.delete(id);
        Ok(task)
    }
}

} // verus!

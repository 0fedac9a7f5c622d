//! The blog entity and the payloads that create and update it.
//!
//! Identifiers are 128-bit values; their textual form is no concern of this
//! module.

use vstd::prelude::*;

verus! {

/// The columns of a blog that a caller chooses: its owner and its name.
pub struct Content {
    pub user_id: u128,
    pub name: Seq<char>,
}

/// Mathematical value of a stored blog.
pub struct BlogView {
    pub blog_id: u128,
    pub user_id: u128,
    pub name: Seq<char>,
}

impl BlogView {
    /// The blog that carries `content` under the identifier `blog_id`.
    pub open spec fn of(blog_id: u128, content: Content) -> BlogView {
        BlogView { blog_id, user_id: content.user_id, name: content.name }
    }

    /// The columns other than the identifier.
    pub open spec fn content(self) -> Content {
        Content { user_id: self.user_id, name: self.name }
    }
}

/// A stored blog.
#[derive(Debug, PartialEq, Eq, PartialOrd, Ord, Hash)]
pub struct Blog {
    /// Identifier of the blog; never reassigned.
    pub blog_id: u128,
    /// Identifier of the user who owns the blog.
    pub user_id: u128,
    /// Name of the blog.
    pub name: String,
}

impl View for Blog {
    type V = BlogView;

    open spec fn view(&self) -> BlogView {
        BlogView { blog_id: self.blog_id, user_id: self.user_id, name: self.name@ }
    }
}

impl Clone for Blog {
    fn clone(&self) -> (copy: Self)
        ensures
            copy == *self,
    {
        Blog { blog_id: self.blog_id, user_id: self.user_id, name: self.name.clone() }
    }
}

/// What a caller supplies to create a blog; the identifier is assigned later.
#[derive(Debug, PartialEq, Eq, PartialOrd, Ord, Hash)]
pub struct CreateBlog {
    /// Identifier of the user who owns the blog.
    pub user_id: u128,
    /// Name of the blog.
    pub name: String,
}

impl View for CreateBlog {
    type V = Content;

    open spec fn view(&self) -> Content {
        Content { user_id: self.user_id, name: self.name@ }
    }
}

impl Clone for CreateBlog {
    fn clone(&self) -> (copy: Self)
        ensures
            copy == *self,
    {
        CreateBlog { user_id: self.user_id, name: self.name.clone() }
    }
}

/// What a caller supplies to update a blog: both columns are overwritten.
#[derive(Debug, PartialEq, Eq, PartialOrd, Ord, Hash)]
pub struct UpdateBlog {
    /// Identifier of the user who owns the blog.
    pub user_id: u128,
    /// Name of the blog.
    pub name: String,
}

impl View for UpdateBlog {
    type V = Content;

    open spec fn view(&self) -> Content {
        Content { user_id: self.user_id, name: self.name@ }
    }
}

impl Clone for UpdateBlog {
    fn clone(&self) -> (copy: Self)
        ensures
            copy == *self,
    {
        UpdateBlog { user_id: self.user_id, name: self.name.clone() }
    }
}

} // verus!

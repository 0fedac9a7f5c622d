//! The table of blogs: one row per identifier.
//!
//! [`BlogTable`] keeps the rows in memory and answers the five statements a
//! repository issues: load everything, find by identifier, insert, update by
//! identifier and delete by identifier. Its contracts are stated over the
//! rows as a map from identifier to content.

use crate::data::model::{Blog, BlogView, Content};
use vstd::prelude::*;

verus! {

/// The values of a run of blogs, in the same order.
pub open spec fn blog_views(blogs: Seq<Blog>) -> Seq<BlogView> {
    blogs.map_values(|blog: Blog| blog@)
}

/// No identifier occurs twice in `listing`.
pub open spec fn distinct_ids(listing: Seq<BlogView>) -> bool {
    forall|i: int, j: int|
        0 <= i < j < listing.len() ==> listing[i].blog_id != listing[j].blog_id
}

/// Some blog of `listing` has the identifier `id`.
pub open spec fn holds(listing: Seq<BlogView>, id: u128) -> bool {
    exists|i: int| 0 <= i < listing.len() && listing[i].blog_id == id
}

/// `listing` shows every row of `rows` exactly once, and nothing else.
pub open spec fn lists(listing: Seq<BlogView>, rows: Map<u128, Content>) -> bool {
    &&& distinct_ids(listing)
    &&& forall|i: int|
        0 <= i < listing.len() ==> rows.contains_key(#[trigger] listing[i].blog_id)
            && rows[listing[i].blog_id] == listing[i].content()
    &&& forall|id: u128| rows.contains_key(id) ==> holds(listing, id)
}

/// Where in `listing` the blog with the identifier `id` stands.
spec fn position(listing: Seq<BlogView>, id: u128) -> int {
    choose|i: int| 0 <= i < listing.len() && listing[i].blog_id == id
}

/// The rows that `listing` shows, by identifier.
spec fn index(listing: Seq<BlogView>) -> Map<u128, Content> {
    Map::new(|id: u128| holds(listing, id), |id: u128| listing[position(listing, id)].content())
}

/// With distinct identifiers, the blog at `i` is the one found under its
/// identifier.
proof fn lemma_position(listing: Seq<BlogView>, i: int)
    requires
        distinct_ids(listing),
        0 <= i < listing.len(),
    ensures
        holds(listing, listing[i].blog_id),
        position(listing, listing[i].blog_id) == i,
        index(listing).contains_key(listing[i].blog_id),
        index(listing)[listing[i].blog_id] == listing[i].content(),
{
    let id = listing[i].blog_id;
    let at = position(listing, id);
    assert(0 <= at < listing.len() && listing[at].blog_id == id);
    if at < i {
        assert(listing[at].blog_id != listing[i].blog_id);
    } else if i < at {
        assert(listing[i].blog_id != listing[at].blog_id);
    }
}

/// A listing with distinct identifiers lists its own index.
proof fn lemma_lists_index(listing: Seq<BlogView>)
    requires
        distinct_ids(listing),
    ensures
        lists(listing, index(listing)),
{
    assert forall|i: int| 0 <= i < listing.len() implies index(listing).contains_key(
        #[trigger] listing[i].blog_id,
    ) && index(listing)[listing[i].blog_id] == listing[i].content() by {
        lemma_position(listing, i);
    }
}

/// Appending a blog under an unused identifier inserts its row.
proof fn lemma_index_push(listing: Seq<BlogView>, blog: BlogView)
    requires
        distinct_ids(listing),
        !holds(listing, blog.blog_id),
    ensures
        distinct_ids(listing.push(blog)),
        index(listing.push(blog)) == index(listing).insert(blog.blog_id, blog.content()),
{
    let grown = listing.push(blog);
    assert forall|i: int, j: int| 0 <= i < j < grown.len() implies grown[i].blog_id
        != grown[j].blog_id by {
        if j == listing.len() {
            assert(listing[i].blog_id != blog.blog_id);
        } else {
            assert(listing[i].blog_id != listing[j].blog_id);
        }
    }
    let want = index(listing).insert(blog.blog_id, blog.content());
    assert forall|id: u128| index(grown).contains_key(id) <==> want.contains_key(id) by {
        if holds(grown, id) {
            let i = position(grown, id);
            if i < listing.len() {
                assert(listing[i].blog_id == id);
            }
        }
        if holds(listing, id) {
            let i = position(listing, id);
            assert(grown[i].blog_id == id);
        }
        if id == blog.blog_id {
            assert(grown[listing.len() as int].blog_id == id);
        }
    }
    assert forall|id: u128| index(grown).contains_key(id) implies index(grown)[id] == want[id] by {
        let i = position(grown, id);
        lemma_position(grown, i);
        if i < listing.len() {
            lemma_position(listing, i);
        }
    }
    assert(index(grown) =~= want);
}

/// Replacing the blog at `i` by one with the same identifier overwrites its row.
proof fn lemma_index_update(listing: Seq<BlogView>, i: int, blog: BlogView)
    requires
        distinct_ids(listing),
        0 <= i < listing.len(),
        blog.blog_id == listing[i].blog_id,
    ensures
        distinct_ids(listing.update(i, blog)),
        index(listing.update(i, blog)) == index(listing).insert(blog.blog_id, blog.content()),
{
    let changed = listing.update(i, blog);
    assert forall|a: int, b: int| 0 <= a < b < changed.len() implies changed[a].blog_id
        != changed[b].blog_id by {
        assert(listing[a].blog_id != listing[b].blog_id);
    }
    let want = index(listing).insert(blog.blog_id, blog.content());
    assert forall|id: u128| index(changed).contains_key(id) <==> want.contains_key(id) by {
        if holds(changed, id) {
            let k = position(changed, id);
            assert(listing[k].blog_id == id);
        }
        if holds(listing, id) {
            let k = position(listing, id);
            assert(changed[k].blog_id == id);
        }
        if id == blog.blog_id {
            assert(changed[i].blog_id == id);
        }
    }
    assert forall|id: u128| index(changed).contains_key(id) implies index(changed)[id]
        == want[id] by {
        let k = position(changed, id);
        lemma_position(changed, k);
        lemma_position(listing, k);
    }
    assert(index(changed) =~= want);
}

/// Taking the blog at `i` out removes its row and no other.
proof fn lemma_index_remove(listing: Seq<BlogView>, i: int)
    requires
        distinct_ids(listing),
        0 <= i < listing.len(),
    ensures
        distinct_ids(listing.remove(i)),
        index(listing.remove(i)) == index(listing).remove(listing[i].blog_id),
{
    let rest = listing.remove(i);
    let gone = listing[i].blog_id;
    assert forall|k: int| 0 <= k < rest.len() implies rest[k] == listing[if k < i {
        k
    } else {
        k + 1
    }] by {}
    assert forall|a: int, b: int| 0 <= a < b < rest.len() implies rest[a].blog_id
        != rest[b].blog_id by {
        let a0 = if a < i { a } else { a + 1 };
        let b0 = if b < i { b } else { b + 1 };
        assert(listing[a0].blog_id != listing[b0].blog_id);
    }
    let want = index(listing).remove(gone);
    assert forall|id: u128| index(rest).contains_key(id) <==> want.contains_key(id) by {
        if holds(rest, id) {
            let k = position(rest, id);
            let k0 = if k < i { k } else { k + 1 };
            assert(listing[k0].blog_id == id);
            lemma_position(listing, i);
            lemma_position(listing, k0);
        }
        if holds(listing, id) && id != gone {
            let k0 = position(listing, id);
            let k = if k0 < i { k0 } else { k0 - 1 };
            assert(rest[k].blog_id == id);
        }
    }
    assert forall|id: u128| index(rest).contains_key(id) implies index(rest)[id] == want[id] by {
        let k = position(rest, id);
        let k0 = if k < i { k } else { k + 1 };
        lemma_position(rest, k);
        lemma_position(listing, k0);
    }
    assert(index(rest) =~= want);
}

/// The blogs table, kept in memory.
///
/// No two rows share an identifier: an insert under an identifier that is
/// already stored is turned away, as a uniqueness constraint would.
pub struct BlogTable {
    stored: Vec<Blog>,
}

impl BlogTable {
    #[verifier::type_invariant]
    spec fn unique(self) -> bool {
        distinct_ids(blog_views(self.stored@))
    }

    /// The rows of the table: content by identifier.
    pub closed spec fn rows(&self) -> Map<u128, Content> {
        index(blog_views(self.stored@))
    }

    /// An empty table.
    pub fn new() -> (table: Self)
        ensures
            table.rows() == Map::<u128, Content>::empty(),
    {
        let table = BlogTable { stored: Vec::new() };
        assert(table.rows() =~= Map::<u128, Content>::empty());
        table
    }

    /// Index of the row with the identifier `id`, if there is one.
    fn find(&self, id: u128) -> (at: Option<usize>)
        ensures
            match at {
                Some(i) => i < self.stored.len() && self.stored[i as int].blog_id == id,
                None => !holds(blog_views(self.stored@), id),
            },
    {
        let mut i: usize = 0;
        while i < self.stored.len()
            invariant
                i <= self.stored.len(),
                forall|k: int| 0 <= k < i ==> self.stored[k].blog_id != id,
            decreases self.stored.len() - i,
        {
            if self.stored[i].blog_id == id {
                return Some(i);
            }
            i += 1;
        }
        assert forall|k: int| 0 <= k < blog_views(self.stored@).len() implies blog_views(
            self.stored@,
        )[k].blog_id != id by {
            assert(self.stored[k].blog_id != id);
        }
        None
    }

    /// Moves the rows out and leaves the table empty, so that a change can be
    /// made on them and put back in one assignment.
    fn take(&mut self) -> (stored: Vec<Blog>)
        ensures
            stored == old(self).stored,
            final(self).stored@ == Seq::<Blog>::empty(),
    {
        let mut stored: Vec<Blog> = Vec::new();
        std::mem::swap(&mut self.stored, &mut stored);
        stored
    }

    /// Every row, each exactly once.
    pub fn load(&self) -> (all: Vec<Blog>)
        ensures
            lists(blog_views(all@), self.rows()),
    {
        let mut all: Vec<Blog> = Vec::new();
        let mut i: usize = 0;
        while i < self.stored.len()
            invariant
                i <= self.stored.len(),
                all@ == self.stored@.subrange(0, i as int),
            decreases self.stored.len() - i,
        {
            all.push(self.stored[i].clone());
            i += 1;
            assert(all@ =~= self.stored@.subrange(0, i as int));
        }
        proof {
            use_type_invariant(self);
            assert(all@ =~= self.stored@);
            lemma_lists_index(blog_views(self.stored@));
        }
        all
    }

    /// The row with the identifier `id`, or `None` if the table has none.
    pub fn first(&self, id: u128) -> (found: Option<Blog>)
        ensures
            match found {
                Some(blog) => {
                    &&& self.rows().contains_key(id)
                    &&& blog@ == BlogView::of(id, self.rows()[id])
                },
                None => !self.rows().contains_key(id),
            },
    {
        match self.find(id) {
            Some(i) => {
                proof {
                    use_type_invariant(self);
                    lemma_position(blog_views(self.stored@), i as int);
                }
                Some(self.stored[i].clone())
            },
            None => None,
        }
    }

    /// Inserts `row` and hands it back, unless its identifier is already
    /// stored: then nothing changes and the answer is `None`.
    pub fn insert(&mut self, row: Blog) -> (inserted: Option<Blog>)
        ensures
            old(self).rows().contains_key(row.blog_id) ==> {
                &&& inserted is None
                &&& final(self).rows() == old(self).rows()
            },
            !old(self).rows().contains_key(row.blog_id) ==> {
                &&& inserted == Some(row)
                &&& final(self).rows() == old(self).rows().insert(row.blog_id, row@.content())
            },
    {
        match self.find(row.blog_id) {
            Some(i) => {
                assert(blog_views(self.stored@)[i as int].blog_id == row.blog_id);
                None
            },
            None => {
                proof {
                    use_type_invariant(&*self);
                    lemma_index_push(blog_views(self.stored@), row@);
                    assert(blog_views(self.stored@.push(row)) =~= blog_views(self.stored@).push(
                        row@,
                    ));
                }
                let copy = row.clone();
                let mut stored = self.take();
                stored.push(row);
                self.stored = stored;
                Some(copy)
            },
        }
    }

    /// Overwrites owner and name of the row with the identifier `id` and hands
    /// the new row back; `None`, and no change, if the table has no such row.
    pub fn update(&mut self, id: u128, user_id: u128, name: String) -> (updated: Option<Blog>)
        ensures
            old(self).rows().contains_key(id) ==> {
                &&& updated == Some(Blog { blog_id: id, user_id, name })
                &&& final(self).rows() == old(self).rows().insert(
                    id,
                    Content { user_id, name: name@ },
                )
            },
            !old(self).rows().contains_key(id) ==> {
                &&& updated is None
                &&& final(self).rows() == old(self).rows()
            },
    {
        match self.find(id) {
            Some(i) => {
                let row = Blog { blog_id: id, user_id, name };
                proof {
                    use_type_invariant(&*self);
                    lemma_position(blog_views(self.stored@), i as int);
                    lemma_index_update(blog_views(self.stored@), i as int, row@);
                    assert(blog_views(self.stored@.update(i as int, row)) =~= blog_views(
                        self.stored@,
                    ).update(i as int, row@));
                }
                let copy = row.clone();
                let mut stored = self.take();
                stored.set(i, row);
                self.stored = stored;
                Some(copy)
            },
            None => None,
        }
    }

    /// Deletes the row with the identifier `id`; the answer is the number of
    /// rows deleted, one or none.
    pub fn delete(&mut self, id: u128) -> (deleted: usize)
        ensures
            final(self).rows() == old(self).rows().remove(id),
            deleted == (if old(self).rows().contains_key(id) { 1usize } else { 0usize }),
    {
        match self.find(id) {
            Some(i) => {
                proof {
                    use_type_invariant(&*self);
                    lemma_position(blog_views(self.stored@), i as int);
                    lemma_index_remove(blog_views(self.stored@), i as int);
                    assert(blog_views(self.stored@.remove(i as int)) =~= blog_views(
                        self.stored@,
                    ).remove(i as int));
                }
                let mut stored = self.take();
                let _ = stored.remove(i);
                self.stored = stored;
                1
            },
            None => {
                assert(self.rows().remove(id) =~= self.rows());
                0
            },
        }
    }
}

} // verus!

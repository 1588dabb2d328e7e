//! The post store: posts kept newest first, and a monotonic source of post ids.

use vstd::prelude::*;
use crate::clock::now_micros;
use crate::domain::{Post, updated_post};
use crate::error::{AppError, detail_of};
use crate::text::{decimal_of, decimal_string};

verus! {

/// `a` is listed before `b`: later `updated_at` first, then the larger id.
pub open spec fn precedes(a: Post, b: Post) -> bool {
    a.updated_at > b.updated_at || (a.updated_at == b.updated_at && a.id > b.id)
}

/// Each post precedes every post after it.
pub open spec fn in_list_order(s: Seq<Post>) -> bool {
    forall|i: int, j: int| 0 <= i < j < s.len() ==> precedes(#[trigger] s[i], #[trigger] s[j])
}

/// No two posts share an id.
pub open spec fn ids_distinct(s: Seq<Post>) -> bool {
    forall|i: int, j: int| 0 <= i < s.len() && 0 <= j < s.len() && i != j ==> (#[trigger] s[i]).id != (#[trigger] s[j]).id
}

/// Some post in `s` has the id `id`.
pub open spec fn has_post(s: Seq<Post>, id: i64) -> bool {
    exists|k: int| 0 <= k < s.len() && (#[trigger] s[k]).id == id
}

/// The position of the post with id `id` (meaningful when there is one).
pub open spec fn position_of(s: Seq<Post>, id: i64) -> int {
    choose|k: int| 0 <= k < s.len() && (#[trigger] s[k]).id == id
}

/// The post with id `id` (meaningful when there is one).
pub open spec fn post_with(s: Seq<Post>, id: i64) -> Post {
    s[position_of(s, id)]
}

/// The page of `s` that starts at row `offset` and holds at most `limit` rows.
pub open spec fn page_of(s: Seq<Post>, offset: int, limit: int) -> Seq<Post> {
    let start = if offset < s.len() { offset } else { s.len() as int };
    let end = if offset + limit < s.len() { offset + limit } else { s.len() as int };
    s.subrange(start, end)
}

/// `new` is `old` with the row at `pos` taken out and `p` put back somewhere.
pub open spec fn moved(old: Seq<Post>, new: Seq<Post>, pos: int, p: Post) -> bool {
    exists|j: int| 0 <= j < old.len() && new == #[trigger] old.remove(pos).insert(j, p)
}

/// Persisted posts, newest first, and the last id handed out.
#[derive(Debug)]
pub struct PostRepository {
    posts: Vec<Post>,
    last_id: i64,
}

impl View for PostRepository {
    type V = Seq<Post>;

    closed spec fn view(&self) -> Seq<Post> {
        self.posts@
    }
}

fn post_precedes(a: &Post, b: &Post) -> (r: bool)
    ensures
        r == precedes(*a, *b),
{
    a.updated_at > b.updated_at || (a.updated_at == b.updated_at && a.id > b.id)
}

impl PostRepository {
    /// The last id handed out (0 before the first).
    pub closed spec fn last_id(&self) -> int {
        self.last_id as int
    }

    /// Posts are in list order with distinct ids, none above the last id
    /// handed out.
    pub open spec fn wf(&self) -> bool {
        &&& in_list_order(self@)
        &&& ids_distinct(self@)
        &&& 0 <= self.last_id() <= i64::MAX
        &&& forall|k: int| 0 <= k < self@.len() ==> (#[trigger] self@[k]).id <= self.last_id()
    }

    /// An empty store.
    pub fn new() -> (r: PostRepository)
        ensures
            r.wf(),
            r@ == Seq::<Post>::empty(),
            r.last_id() == 0,
    {
        PostRepository { posts: Vec::new(), last_id: 0 }
    }

    /// A store resumed from persisted rows (in any order) and the last id
    /// handed out, so that no id is handed out twice across restarts. Rows
    /// that share an id are refused.
    pub fn restore(rows: &Vec<Post>, last_id: i64) -> (r: Result<PostRepository, AppError>)
        ensures
            r matches Ok(repo) ==> repo.wf() && repo.last_id() >= last_id && repo@.len() == rows@.len()
                && forall|p: Post| repo@.contains(p) <==> rows@.contains(p),
            r is Err <==> !ids_distinct(rows@),
    {
        let mut repo = PostRepository::new();
        let mut k: usize = 0;
        while k < rows.len()
            invariant
                k <= rows@.len(),
                repo.wf(),
                repo@.len() == k,
                forall|p: Post| repo@.contains(p) <==> rows@.subrange(0, k as int).contains(p),
                ids_distinct(rows@.subrange(0, k as int)),
            decreases rows@.len() - k,
        {
            let p = rows[k].duplicate();
            let ghost prefix = repo@;
            match repo.add_new_post(p) {
                Ok(()) => {},
                Err(e) => {
                    proof {
                        let row = rows@[k as int];
                        let j = choose|j: int| 0 <= j < prefix.len() && (#[trigger] prefix[j]).id == row.id;
                        assert(prefix.contains(prefix[j]));
                        let i = choose|i: int| 0 <= i < k && rows@.subrange(0, k as int)[i] == prefix[j];
                        assert(rows@[i] == prefix[j]);
                        assert(!ids_distinct(rows@)) by {
                            if ids_distinct(rows@) {
                                assert(rows@[i].id != rows@[k as int].id);
                            }
                        }
                    }
                    return Err(e);
                },
            }
            let ghost row = rows@[k as int];
            let ghost next = rows@.subrange(0, k + 1);
            assert(next =~= rows@.subrange(0, k as int).push(row));
            assert forall|q: Post| repo@.contains(q) <==> next.contains(q) by {
                let i = choose|i: int| 0 <= i <= prefix.len() && repo@ == #[trigger] prefix.insert(i, row);
                if repo@.contains(q) {
                    let m = choose|m: int| 0 <= m < repo@.len() && repo@[m] == q;
                    if m < i {
                        assert(prefix[m] == q);
                        assert(prefix.contains(q));
                    } else if m > i {
                        assert(prefix[m - 1] == q);
                        assert(prefix.contains(q));
                    }
                    assert(next.contains(q)) by {
                        if q != row {
                            let n = choose|n: int| 0 <= n < k && rows@.subrange(0, k as int)[n] == q;
                            assert(next[n] == q);
                        } else {
                            assert(next[k as int] == q);
                        }
                    }
                }
                if next.contains(q) {
                    let n = choose|n: int| 0 <= n <= k && next[n] == q;
                    if n < k {
                        assert(rows@.subrange(0, k as int)[n] == q);
                        assert(prefix.contains(q));
                        let m = choose|m: int| 0 <= m < prefix.len() && prefix[m] == q;
                        if m < i {
                            assert(repo@[m] == q);
                        } else {
                            assert(repo@[m + 1] == q);
                        }
                    } else {
                        assert(repo@[i] == q);
                    }
                }
            }
            assert(ids_distinct(next)) by {
                assert forall|a: int, b: int| 0 <= a < next.len() && 0 <= b < next.len() && a != b implies
                    (#[trigger] next[a]).id != (#[trigger] next[b]).id by {
                    if a == k || b == k {
                        let o = if a == k { b } else { a };
                        assert(prefix.contains(next[o])) by {
                            assert(rows@.subrange(0, k as int)[o] == next[o]);
                        }
                    }
                }
            }
            k = k + 1;
        }
        assert(rows@.subrange(0, k as int) =~= rows@);
        if repo.last_id < last_id {
            repo.last_id = last_id;
        }
        Ok(repo)
    }

    /// Reserves a fresh id, above every id handed out before.
    pub fn next_post_id(&mut self) -> (r: Result<i64, AppError>)
        requires
            old(self).wf(),
        ensures
            final(self).wf(),
            final(self)@ == old(self)@,
            old(self).last_id() < i64::MAX ==> (r matches Ok(id) && id == old(self).last_id() + 1
                && final(self).last_id() == id),
            old(self).last_id() == i64::MAX ==> (r matches Err(e) && e is InternalError
                && detail_of(e) == "DB error"@ && final(self).last_id() == old(self).last_id()),
    {
        if self.last_id == i64::MAX {
            return Err(AppError::InternalError(String::from_str("DB error")));
        }
        self.last_id = self.last_id + 1;
        Ok(self.last_id)
    }

    /// The position of the post with id `id`, if any.
    fn find(&self, id: i64) -> (r: Option<usize>)
        requires
            self.wf(),
        ensures
            r matches Some(k) ==> k < self@.len() && self@[k as int].id == id && position_of(self@, id) == k,
            r is None <==> !has_post(self@, id),
    {
        let mut k: usize = 0;
        while k < self.posts.len()
            invariant
                k <= self.posts@.len(),
                self.wf(),
                forall|j: int| 0 <= j < k ==> (#[trigger] self.posts@[j]).id != id,
            decreases self.posts@.len() - k,
        {
            if self.posts[k].id == id {
                assert(self@[k as int].id == id);
                let ghost p = position_of(self@, id);
                assert(self@[p].id == id);
                assert(p == k as int) by {
                    assert(0 <= p < self@.len());
                    assert(ids_distinct(self@));
                    if p != k as int {
                        assert(self@[p].id != self@[k as int].id);
                    }
                }
                return Some(k);
            }
            k = k + 1;
        }
        None
    }

    /// Puts `post` where list order wants it. Its id is new to the store.
    fn insert_ordered(&mut self, post: Post) -> (r: usize)
        requires
            in_list_order(old(self)@),
            ids_distinct(old(self)@),
            !has_post(old(self)@, post.id),
        ensures
            r <= old(self)@.len(),
            final(self)@ == old(self)@.insert(r as int, post),
            in_list_order(final(self)@),
            ids_distinct(final(self)@),
            final(self).last_id == old(self).last_id,
    {
        let mut j: usize = 0;
        while j < self.posts.len() && post_precedes(&self.posts[j], &post)
            invariant
                j <= self.posts@.len(),
                forall|k: int| 0 <= k < j ==> precedes(#[trigger] self.posts@[k], post),
            decreases self.posts@.len() - j,
        {
            j = j + 1;
        }
        let ghost before = self.posts@;
        assert(forall|k: int| j <= k < before.len() ==> precedes(post, #[trigger] before[k])) by {
            if j < before.len() {
                assert(!precedes(before[j as int], post));
                assert(before[j as int].id != post.id);
            }
        }
        self.posts.insert(j, post);
        let ghost after = self.posts@;
        assert(forall|k: int| 0 <= k < j ==> after[k] == before[k]);
        assert(forall|k: int| j < k < after.len() ==> after[k] == before[k - 1]);
        j
    }

    /// Persists `post`. A post with the same id already stored is an
    /// internal error, and nothing changes.
    pub fn add_new_post(&mut self, post: Post) -> (r: Result<(), AppError>)
        requires
            old(self).wf(),
        ensures
            final(self).wf(),
            final(self).last_id() >= old(self).last_id(),
            r is Ok <==> !has_post(old(self)@, post.id),
            r is Ok ==> exists|i: int| 0 <= i <= old(self)@.len() && final(self)@ == old(self)@.insert(i, post),
            r matches Err(e) ==> e is InternalError && final(self)@ == old(self)@
                && final(self).last_id() == old(self).last_id(),
    {
        if self.find(post.id).is_some() {
            return Err(AppError::InternalError(String::from_str("DB error")));
        }
        if post.id > self.last_id {
            self.last_id = post.id;
        }
        let ghost id = post.id;
        let i = self.insert_ordered(post);
        assert(forall|k: int| 0 <= k < self@.len() ==> (#[trigger] self@[k]).id <= self.last_id()) by {
            assert forall|k: int| 0 <= k < self@.len() implies (#[trigger] self@[k]).id <= self.last_id() by {
                if k < i {
                    assert(self@[k] == old(self)@[k]);
                } else if k > i {
                    assert(self@[k] == old(self)@[k - 1]);
                }
            }
        }
        Ok(())
    }

    /// The author of the post with id `post_id`, or `PostNotFound` naming it.
    pub fn get_post_author_id(&self, post_id: i64) -> (r: Result<i64, AppError>)
        requires
            self.wf(),
        ensures
            has_post(self@, post_id) ==> r == Ok::<i64, AppError>(post_with(self@, post_id).author_id),
            !has_post(self@, post_id) ==> (r matches Err(e) && e is PostNotFound
                && detail_of(e) == decimal_of(post_id as int)),
    {
        match self.find(post_id) {
            Some(k) => Ok(self.posts[k].author_id),
            None => Err(AppError::PostNotFound(decimal_string(post_id))),
        }
    }

    /// The post with id `post_id`, or `PostNotFound` naming it.
    pub fn get_post(&self, post_id: i64) -> (r: Result<Post, AppError>)
        requires
            self.wf(),
        ensures
            has_post(self@, post_id) ==> (r matches Ok(p) && p == post_with(self@, post_id)),
            !has_post(self@, post_id) ==> (r matches Err(e) && e is PostNotFound
                && detail_of(e) == decimal_of(post_id as int)),
    {
        match self.find(post_id) {
            Some(k) => Ok(self.posts[k].duplicate()),
            None => Err(AppError::PostNotFound(decimal_string(post_id))),
        }
    }

    /// Applies an update to the post with id `post_id` at the current instant.
    pub fn update_post(&mut self, post_id: i64, new_title: Option<String>, new_content: Option<String>) -> (r: Result<Post, AppError>)
        requires
            old(self).wf(),
        ensures
            final(self).wf(),
            final(self).last_id() == old(self).last_id(),
            has_post(old(self)@, post_id) ==> (r matches Ok(p) && exists|now: i64|
                p == #[trigger] updated_post(post_with(old(self)@, post_id), new_title, new_content, now)),
            has_post(old(self)@, post_id) && new_title is None && new_content is None ==> (
            r matches Ok(p) && p == post_with(old(self)@, post_id) && final(self)@ == old(self)@),
            r is Ok ==> moved(old(self)@, final(self)@, position_of(old(self)@, post_id), r->Ok_0),
            !has_post(old(self)@, post_id) ==> (r matches Err(e) && e is PostNotFound
                && final(self)@ == old(self)@),
    {
        let now = now_micros();
        self.update_post_at(post_id, new_title, new_content, now)
    }

    /// Applies an update to the post with id `post_id` at `now`, and moves it
    /// to where list order wants it. The stored post and the returned one
    /// are `updated_post` of the old one.
    pub fn update_post_at(
        &mut self,
        post_id: i64,
        new_title: Option<String>,
        new_content: Option<String>,
        now: i64,
    ) -> (r: Result<Post, AppError>)
        requires
            old(self).wf(),
        ensures
            final(self).wf(),
            final(self).last_id() == old(self).last_id(),
            has_post(old(self)@, post_id) ==> (r matches Ok(p)
                && p == updated_post(post_with(old(self)@, post_id), new_title, new_content, now)),
            r is Ok ==> moved(old(self)@, final(self)@, position_of(old(self)@, post_id), r->Ok_0),
            has_post(old(self)@, post_id) && new_title is None && new_content is None
                ==> final(self)@ == old(self)@,
            !has_post(old(self)@, post_id) ==> (r matches Err(e) && e is PostNotFound
                && detail_of(e) == decimal_of(post_id as int) && final(self)@ == old(self)@),
    {
        let k = match self.find(post_id) {
            Some(k) => k,
            None => {
                return Err(AppError::PostNotFound(decimal_string(post_id)));
            },
        };
        if new_title.is_none() && new_content.is_none() {
            let p = self.posts[k].duplicate();
            assert(old(self)@ =~= old(self)@.remove(k as int).insert(k as int, p));
            assert(0 <= k < self@.len() && self@ == old(self)@.remove(position_of(old(self)@, post_id)).insert(k as int, p));
            assert(moved(old(self)@, self@, position_of(old(self)@, post_id), p));
            return Ok(p);
        }
        let ghost before = self.posts@;
        let mut post = self.posts.remove(k);
        let ghost removed = self.posts@;
        assert(removed == before.remove(k as int));
        assert(forall|i: int| 0 <= i < k ==> removed[i] == before[i]);
        assert(forall|i: int| k <= i < removed.len() ==> removed[i] == before[i + 1]);
        assert(!has_post(removed, post_id)) by {
            if has_post(removed, post_id) {
                let i = choose|i: int| 0 <= i < removed.len() && (#[trigger] removed[i]).id == post_id;
                if i < k {
                    assert(before[i].id == before[k as int].id);
                } else {
                    assert(before[i + 1].id == before[k as int].id);
                }
            }
        }
        post.update_at(new_title, new_content, now);
        let result = post.duplicate();
        let j = self.insert_ordered(post);
        assert(forall|i: int| 0 <= i < self@.len() ==> (#[trigger] self@[i]).id <= self.last_id()) by {
            assert forall|i: int| 0 <= i < self@.len() implies (#[trigger] self@[i]).id <= self.last_id() by {
                if i < j {
                    assert(self@[i] == removed[i]);
                } else if i > j {
                    assert(self@[i] == removed[i - 1]);
                }
            }
        }
        assert(0 <= j < self@.len() && self@ == old(self)@.remove(position_of(old(self)@, post_id)).insert(j as int, result));
        assert(moved(old(self)@, self@, position_of(old(self)@, post_id), result));
        Ok(result)
    }

    /// Removes the post with id `post_id`; a missing row is an internal error.
    pub fn delete_post(&mut self, post_id: i64) -> (r: Result<(), AppError>)
        requires
            old(self).wf(),
        ensures
            final(self).wf(),
            final(self).last_id() == old(self).last_id(),
            r is Ok <==> has_post(old(self)@, post_id),
            r is Ok ==> final(self)@ == old(self)@.remove(position_of(old(self)@, post_id)),
            r matches Err(e) ==> e is InternalError && final(self)@ == old(self)@,
    {
        match self.find(post_id) {
            Some(k) => {
                let ghost before = self.posts@;
                let _ = self.posts.remove(k);
                assert(forall|i: int| 0 <= i < k ==> self.posts@[i] == before[i]);
                assert(forall|i: int| k <= i < self.posts@.len() ==> self.posts@[i] == before[i + 1]);
                Ok(())
            },
            None => Err(AppError::InternalError(String::from_str("DB error"))),
        }
    }

    /// The posts from row `offset`, at most `limit` of them, in list order.
    /// A negative offset or limit is refused as the database refuses it.
    pub fn get_posts(&self, offset: i64, limit: i64) -> (r: Result<Vec<Post>, AppError>)
        requires
            self.wf(),
        ensures
            offset >= 0 && limit >= 0 ==> (r matches Ok(v) && v@ == page_of(self@, offset as int, limit as int)),
            offset < 0 || limit < 0 ==> (r matches Err(e) && e is InternalError),
    {
        if offset < 0 || limit < 0 {
            return Err(AppError::InternalError(String::from_str("DB error")));
        }
        let n = self.posts.len();
        let start: usize = if (offset as u64) < (n as u64) { offset as usize } else { n };
        let end: usize = if (limit as u64) < ((n - start) as u64) { start + limit as usize } else { n };
        let mut page: Vec<Post> = Vec::new();
        let mut k: usize = start;
        while k < end
            invariant
                start <= k <= end <= self.posts@.len(),
                page@ == self.posts@.subrange(start as int, k as int),
            decreases end - k,
        {
            page.push(self.posts[k].duplicate());
            assert(page@ =~= self.posts@.subrange(start as int, k + 1));
            k = k + 1;
        }
        assert(page@ =~= page_of(self@, offset as int, limit as int));
        Ok(page)
    }
}

/// A page holds at most `limit` posts, each drawn from the listing, with no
/// id twice, and in list order.
pub proof fn lemma_page_coverage(s: Seq<Post>, offset: int, limit: int)
    requires
        in_list_order(s),
        ids_distinct(s),
        0 <= offset,
        0 < limit,
    ensures
        page_of(s, offset, limit).len() <= limit,
        forall|k: int| 0 <= k < page_of(s, offset, limit).len() ==> s.contains(#[trigger] page_of(s, offset, limit)[k]),
        ids_distinct(page_of(s, offset, limit)),
        in_list_order(page_of(s, offset, limit)),
{
    let page = page_of(s, offset, limit);
    let start = if offset < s.len() { offset } else { s.len() as int };
    assert forall|k: int| 0 <= k < page.len() implies s.contains(#[trigger] page[k]) by {
        assert(page[k] == s[start + k]);
    }
    assert forall|i: int, j: int| 0 <= i < page.len() && 0 <= j < page.len() && i != j implies (#[trigger] page[i]).id
        != (#[trigger] page[j]).id by {
        assert(page[i] == s[start + i]);
        assert(page[j] == s[start + j]);
    }
    assert forall|i: int, j: int| 0 <= i < j < page.len() implies precedes(#[trigger] page[i], #[trigger] page[j]) by {
        assert(page[i] == s[start + i]);
        assert(page[j] == s[start + j]);
    }
}

} // verus!

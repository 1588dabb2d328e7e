//! Post operations with ownership checks, and the public view of a post.

use vstd::prelude::*;
use crate::clock::{rfc3339, rfc3339_of};
use crate::domain::{Post, updated_post};
use crate::error::{AppError, detail_of};
use crate::jwt::Claims;
use crate::posts::{PostRepository, has_post, post_with, page_of, moved, position_of};
use crate::text::decimal_of;

verus! {

/// The authenticated caller of a request.
#[derive(Debug, Clone, Default)]
pub struct AuthUser {
    pub username: String,
    pub email: String,
    pub id: i64,
}

/// The fields of a new post.
#[derive(Debug, Clone, Default)]
pub struct NewPost {
    pub title: String,
    pub content: String,
}

/// A patch: each field that is present replaces the stored one.
#[derive(Debug, Clone, Default)]
pub struct UpdatePost {
    pub title: Option<String>,
    pub content: Option<String>,
}

/// Names a post.
#[derive(Debug, Clone, Copy, Default)]
pub struct PostId {
    pub id: i64,
}

/// A page request; a missing field takes its default.
#[derive(Debug, Clone, Copy, Default)]
pub struct GetPostsReq {
    pub offset: Option<i64>,
    pub limit: Option<i64>,
}

/// The public view of a post, with instants in RFC 3339.
#[derive(Debug, Clone, Default)]
pub struct PostInfo {
    pub id: i64,
    pub title: String,
    pub content: String,
    pub author_id: i64,
    pub created_at: String,
    pub updated_at: String,
}

/// A page of posts, echoing the offset and limit it was made with.
#[derive(Debug, Clone, Default)]
pub struct PostResp {
    pub offset: i64,
    pub limit: i64,
    pub posts: Vec<PostInfo>,
}

/// Offset used when a page request gives none.
pub const DEFAULT_OFFSET: i64 = 0;

/// Limit used when a page request gives none.
pub const DEFAULT_LIMIT: i64 = 10;

/// `info` shows `p`.
pub open spec fn shows(info: PostInfo, p: Post) -> bool {
    &&& info.id == p.id
    &&& info.title == p.title
    &&& info.content == p.content
    &&& info.author_id == p.author_id
    &&& info.created_at@ == rfc3339_of(p.created_at as int)
    &&& info.updated_at@ == rfc3339_of(p.updated_at as int)
}

/// Each info of `infos` shows the post at the same place in `ps`.
pub open spec fn shows_all(infos: Seq<PostInfo>, ps: Seq<Post>) -> bool {
    &&& infos.len() == ps.len()
    &&& forall|k: int| 0 <= k < ps.len() ==> shows(#[trigger] infos[k], ps[k])
}

/// `given` if present, else `default`.
pub open spec fn or_default(given: Option<i64>, default: i64) -> i64 {
    match given {
        Some(v) => v,
        None => default,
    }
}

/// `info` shows a post that was put into `before`, giving `after`: it has
/// id `id`, the fields of `new_post`, the author `author` and equal instants.
pub open spec fn created(info: PostInfo, before: Seq<Post>, after: Seq<Post>, id: int, new_post: NewPost, author: i64) -> bool {
    exists|p: Post| {
        &&& #[trigger] shows(info, p)
        &&& p.id == id
        &&& p.title == new_post.title
        &&& p.content == new_post.content
        &&& p.author_id == author
        &&& p.created_at == p.updated_at
        &&& exists|i: int| 0 <= i <= before.len() && after == #[trigger] before.insert(i, p)
    }
}

/// `info` shows the post with id `id` of `before` with `patch` applied at
/// some instant, and `after` is `before` with that post so replaced.
pub open spec fn patched(info: PostInfo, before: Seq<Post>, after: Seq<Post>, id: i64, patch: UpdatePost) -> bool {
    exists|now: i64| {
        let p = #[trigger] updated_post(post_with(before, id), patch.title, patch.content, now);
        &&& shows(info, p)
        &&& moved(before, after, position_of(before, id), p)
    }
}

/// What creating a post by `caller` does to a store whose last id is
/// `last_id`: a fresh post under the next id, or, with ids exhausted, an
/// internal error and no change.
pub open spec fn create_outcome(
    before: Seq<Post>,
    after: Seq<Post>,
    last_id: int,
    caller: i64,
    new_post: NewPost,
    r: Result<PostInfo, AppError>,
) -> bool {
    if last_id < i64::MAX {
        r matches Ok(info) && created(info, before, after, last_id + 1, new_post, caller)
    } else {
        r matches Err(e) && e is InternalError && after == before
    }
}

/// What patching post `post_id` on behalf of `caller` does: `PostNotFound`
/// for an absent post, `Unauthorized` for someone else's (both with no
/// change), else the patched post.
pub open spec fn update_outcome(
    before: Seq<Post>,
    after: Seq<Post>,
    caller: i64,
    post_id: i64,
    patch: UpdatePost,
    r: Result<PostInfo, AppError>,
) -> bool {
    if !has_post(before, post_id) {
        r matches Err(e) && e is PostNotFound && detail_of(e) == decimal_of(post_id as int) && after == before
    } else if post_with(before, post_id).author_id != caller {
        r matches Err(e) && e is Unauthorized && detail_of(e) == "No permission for update"@ && after == before
    } else {
        r matches Ok(info) && patched(info, before, after, post_id, patch)
    }
}

/// What deleting post `post_id` on behalf of `caller` does: `PostNotFound`
/// for an absent post, `Unauthorized` for someone else's (both with no
/// change), else the post is gone.
pub open spec fn delete_outcome(before: Seq<Post>, after: Seq<Post>, caller: i64, post_id: i64, r: Result<(), AppError>) -> bool {
    if !has_post(before, post_id) {
        r matches Err(e) && e is PostNotFound && detail_of(e) == decimal_of(post_id as int) && after == before
    } else if post_with(before, post_id).author_id != caller {
        r matches Err(e) && e is Unauthorized && detail_of(e) == "No permission for delete"@ && after == before
    } else {
        r is Ok && after == before.remove(position_of(before, post_id))
    }
}

impl AuthUser {
    /// The caller named by verified claims.
    pub fn from_claims(claims: Claims) -> (r: AuthUser)
        ensures
            r.username == claims.username && r.email == claims.email && r.id == claims.id,
    {
        AuthUser { username: claims.username, email: claims.email, id: claims.id }
    }
}

impl PostInfo {
    /// The public view of `post`.
    pub fn from_post(post: &Post) -> (r: PostInfo)
        ensures
            shows(r, *post),
    {
        PostInfo {
            id: post.id,
            title: post.title.clone(),
            content: post.content.clone(),
            author_id: post.author_id,
            created_at: rfc3339(post.created_at),
            updated_at: rfc3339(post.updated_at),
        }
    }
}

/// The public views of `posts`, in order.
pub fn infos_of(posts: &Vec<Post>) -> (r: Vec<PostInfo>)
    ensures
        shows_all(r@, posts@),
{
    let mut r: Vec<PostInfo> = Vec::new();
    let mut k: usize = 0;
    while k < posts.len()
        invariant
            k <= posts@.len(),
            r@.len() == k,
            forall|j: int| 0 <= j < k ==> shows(#[trigger] r@[j], posts@[j]),
        decreases posts@.len() - k,
    {
        r.push(PostInfo::from_post(&posts[k]));
        k = k + 1;
    }
    r
}

/// Orchestrates post operations over the post store.
#[derive(Debug)]
pub struct BlogService {
    pub post_repo: PostRepository,
}

impl BlogService {
    pub fn new(post_repo: PostRepository) -> (r: BlogService)
        ensures
            r.post_repo == post_repo,
    {
        BlogService { post_repo }
    }

    /// Creates a post authored by the caller, under a fresh id, stamped now.
    /// Fails only when ids are exhausted.
    pub fn create_post(&mut self, auth_user: AuthUser, new_post: NewPost) -> (r: Result<PostInfo, AppError>)
        requires
            old(self).post_repo.wf(),
        ensures
            final(self).post_repo.wf(),
            create_outcome(old(self).post_repo@, final(self).post_repo@, old(self).post_repo.last_id(),
                auth_user.id, new_post, r),
    {
        let ghost prev = self.post_repo.last_id();
        assert(forall|k: int| 0 <= k < self.post_repo@.len() ==> (#[trigger] self.post_repo@[k]).id <= prev);
        let post_id = match self.post_repo.next_post_id() {
            Ok(id) => id,
            Err(e) => {
                return Err(e);
            },
        };
        let post = Post::create(post_id, new_post.title, new_post.content, auth_user.id);
        let info = PostInfo::from_post(&post);
        let ghost stored = post;
        assert(!has_post(self.post_repo@, post_id));
        match self.post_repo.add_new_post(post) {
            Ok(()) => {},
            Err(e) => {
                return Err(e);
            },
        }
        assert(shows(info, stored));
        assert(created(info, old(self).post_repo@, self.post_repo@, old(self).post_repo.last_id() + 1, new_post, auth_user.id)) by {
            assert(stored.id == old(self).post_repo.last_id() + 1);
        }
        Ok(info)
    }

    /// The post with the given id, for anyone; `PostNotFound` when absent.
    pub fn get_post(&self, post_id: PostId) -> (r: Result<PostInfo, AppError>)
        requires
            self.post_repo.wf(),
        ensures
            has_post(self.post_repo@, post_id.id) ==> (r matches Ok(info) && shows(
                info,
                post_with(self.post_repo@, post_id.id),
            )),
            !has_post(self.post_repo@, post_id.id) ==> (r matches Err(e) && e is PostNotFound
                && detail_of(e) == decimal_of(post_id.id as int)),
    {
        match self.post_repo.get_post(post_id.id) {
            Ok(post) => Ok(PostInfo::from_post(&post)),
            Err(e) => Err(e),
        }
    }

    /// Applies a patch to a post of the caller. An absent post is
    /// `PostNotFound`; a post of someone else is `Unauthorized` and stays as
    /// it was. The fields given replace the stored ones, and `updated_at`
    /// moves only when at least one is given.
    pub fn update_post(&mut self, auth_user: AuthUser, post_id: PostId, update: UpdatePost) -> (r: Result<PostInfo, AppError>)
        requires
            old(self).post_repo.wf(),
        ensures
            final(self).post_repo.wf(),
            update_outcome(old(self).post_repo@, final(self).post_repo@, auth_user.id, post_id.id, update, r),
            update.title is None && update.content is None ==> final(self).post_repo@ == old(self).post_repo@,
    {
        let author_id = match self.post_repo.get_post_author_id(post_id.id) {
            Ok(a) => a,
            Err(e) => {
                return Err(e);
            },
        };
        if author_id != auth_user.id {
            return Err(AppError::Unauthorized(String::from_str("No permission for update")));
        }
        let ghost before = self.post_repo@;
        let ghost patch = update;
        match self.post_repo.update_post(post_id.id, update.title, update.content) {
            Ok(post) => {
                let info = PostInfo::from_post(&post);
                let ghost now = choose|now: i64| post == #[trigger] updated_post(post_with(before, post_id.id), patch.title, patch.content, now);
                assert(shows(info, updated_post(post_with(before, post_id.id), patch.title, patch.content, now)));
                assert(patched(info, before, self.post_repo@, post_id.id, patch));
                Ok(info)
            },
            Err(e) => Err(e),
        }
    }

    /// Deletes a post of the caller. An absent post is `PostNotFound`; a
    /// post of someone else is `Unauthorized` and stays.
    pub fn delete_post(&mut self, auth_user: AuthUser, post_id: PostId) -> (r: Result<(), AppError>)
        requires
            old(self).post_repo.wf(),
        ensures
            final(self).post_repo.wf(),
            delete_outcome(old(self).post_repo@, final(self).post_repo@, auth_user.id, post_id.id, r),
    {
        let author_id = match self.post_repo.get_post_author_id(post_id.id) {
            Ok(a) => a,
            Err(e) => {
                return Err(e);
            },
        };
        if author_id != auth_user.id {
            return Err(AppError::Unauthorized(String::from_str("No permission for delete")));
        }
        self.post_repo.delete_post(post_id.id)
    }

    /// A page request is served exactly when its resolved offset and limit
    /// are not negative.
    pub open spec fn get_posts_succeeds(&self, query: GetPostsReq) -> bool {
        or_default(query.offset, DEFAULT_OFFSET) >= 0 && or_default(query.limit, DEFAULT_LIMIT) >= 0
    }

    /// A page of posts, newest `updated_at` first (ties: larger id first),
    /// from row `offset` (default 0), at most `limit` (default 10) of them.
    /// A negative offset or limit is an internal error.
    pub fn get_posts(&self, query: GetPostsReq) -> (r: Result<PostResp, AppError>)
        requires
            self.post_repo.wf(),
        ensures
            ({
                let offset = or_default(query.offset, DEFAULT_OFFSET);
                let limit = or_default(query.limit, DEFAULT_LIMIT);
                &&& offset >= 0 && limit >= 0 ==> (r matches Ok(resp) && resp.offset == offset
                    && resp.limit == limit && shows_all(resp.posts@, page_of(self.post_repo@, offset as int, limit as int)))
                &&& offset < 0 || limit < 0 ==> (r matches Err(e) && e is InternalError)
            }),
    {
        let offset = match query.offset {
            Some(v) => v,
            None => DEFAULT_OFFSET,
        };
        let limit = match query.limit {
            Some(v) => v,
            None => DEFAULT_LIMIT,
        };
        if offset < 0 || limit < 0 {
            return Err(AppError::InternalError(String::from_str("negative offset or limit")));
        }
        let posts = match self.post_repo.get_posts(offset, limit) {
            Ok(v) => v,
            Err(e) => {
                return Err(e);
            },
        };
        Ok(PostResp { offset, limit, posts: infos_of(&posts) })
    }
}

} // verus!

//! Request handling: routing by method and path, validation of a new post,
//! and the reply (status and body) for each outcome of the store.
use vstd::prelude::*;

use crate::ids::is_v4;
use crate::json::{json_member_text, json_parses, opt_view, string_member};
use crate::post::{
    object_text, post_json, posts_from_rows, posts_json, posts_to_json, posts_view, row_of,
    row_post, rows_decode_to, rows_posts, rows_view, NewPost, Post, PostRow, PostView, StoreError,
};

verus! {

pub const OK: u16 = 200;

pub const BAD_REQUEST: u16 = 400;

pub const NOT_FOUND: u16 = 404;

pub const INTERNAL_ERROR: u16 = 500;

/// Where a request goes.
#[derive(Debug, Clone, Copy, PartialEq, Eq, Structural)]
pub enum Route {
    CreatePost,
    ListPosts,
    NotFound,
}

pub open spec fn posts_path() -> Seq<char> {
    "/posts"@
}

/// `POST /posts` creates, `GET /posts` lists, anything else is not found.
pub open spec fn route_of(method: Seq<char>, path: Seq<char>) -> Route {
    if path == posts_path() && method == "POST"@ {
        Route::CreatePost
    } else if path == posts_path() && method == "GET"@ {
        Route::ListPosts
    } else {
        Route::NotFound
    }
}

/// Whether two texts are equal, character by character.
fn same_text(a: &str, b: &str) -> (r: bool)
    ensures
        r == (a@ == b@),
{
    let n = a.unicode_len();
    if n != b.unicode_len() {
        return false;
    }
    let mut i: usize = 0;
    while i < n
        invariant
            n == a@.len(),
            n == b@.len(),
            i <= n,
            forall|k: int| 0 <= k < i ==> a@[k] == b@[k],
        decreases n - i,
    {
        if a.get_char(i) != b.get_char(i) {
            return false;
        }
        i = i + 1;
    }
    assert(a@ =~= b@);
    true
}

/// The route of a request, by its method and path alone.
pub fn route(method: &str, path: &str) -> (r: Route)
    ensures
        r == route_of(method@, path@),
        path@ != posts_path() ==> r == Route::NotFound,
{
    if !same_text(path, "/posts") {
        return Route::NotFound;
    }
    if same_text(method, "POST") {
        Route::CreatePost
    } else if same_text(method, "GET") {
        Route::ListPosts
    } else {
        Route::NotFound
    }
}

/// An HTTP reply: a status code and a text body.
pub struct Reply {
    pub status: u16,
    pub body: String,
}

pub open spec fn read_failed_msg() -> Seq<char> {
    "Failed to read request body"@
}

pub open spec fn empty_field_msg() -> Seq<char> {
    "Title and content cannot be empty"@
}

pub open spec fn insert_failed_msg() -> Seq<char> {
    "Failed to insert post into database"@
}

pub open spec fn fetch_failed_msg() -> Seq<char> {
    "Failed to fetch posts from database"@
}

pub open spec fn not_found_msg() -> Seq<char> {
    "Not Found"@
}

/// A reply with the given status and message.
pub fn error_response(status: u16, message: &str) -> (r: Reply)
    ensures
        r.status == status,
        r.body@ == message@,
{
    Reply { status, body: String::from_str(message) }
}

/// The reply to a request that no route takes.
pub fn not_found() -> (r: Reply)
    ensures
        r.status == NOT_FOUND,
        r.body@ == not_found_msg(),
{
    error_response(NOT_FOUND, "Not Found")
}

/// The reply when the request body cannot be read or parsed.
pub fn body_unreadable() -> (r: Reply)
    ensures
        r.status == INTERNAL_ERROR,
        r.body@ == read_failed_msg(),
{
    error_response(INTERNAL_ERROR, "Failed to read request body")
}

/// A text, or the empty text where there is none.
pub open spec fn or_empty(o: Option<Seq<char>>) -> Seq<char> {
    match o {
        Some(t) => t,
        None => Seq::empty(),
    }
}

/// A string member of the body, the empty text where it is missing or not a
/// string.
pub open spec fn member_or_empty(body: Seq<u8>, key: Seq<char>) -> Seq<char> {
    or_empty(json_member_text(body, key))
}

pub open spec fn title_of(body: Seq<u8>) -> Seq<char> {
    member_or_empty(body, "title"@)
}

pub open spec fn content_of(body: Seq<u8>) -> Seq<char> {
    member_or_empty(body, "content"@)
}

/// The title and content of a create request: a body that is not JSON fails
/// with 500, an empty (or missing, or non-string) title or content with 400.
pub fn read_new_post(body: &[u8]) -> (r: Result<NewPost, Reply>)
    ensures
        !json_parses(body@) ==> (r matches Err(e) && e.status == INTERNAL_ERROR && e.body@
            == read_failed_msg()),
        json_parses(body@) && (title_of(body@).len() == 0 || content_of(body@).len() == 0) ==> (
        r matches Err(e) && e.status == BAD_REQUEST && e.body@ == empty_field_msg()),
        json_parses(body@) && title_of(body@).len() > 0 && content_of(body@).len() > 0 ==> (
        r matches Ok(n) && n.wf() && n.title@ == title_of(body@) && n.content@ == content_of(
            body@,
        )),
{
    let title = match string_member(body, "title") {
        Ok(t) => t,
        Err(_) => return Err(body_unreadable()),
    };
    let content = match string_member(body, "content") {
        Ok(c) => c,
        Err(_) => return Err(body_unreadable()),
    };
    validate_fields(title, content)
}

/// The title and content of a create request from its two members as read
/// (`None` where missing or not a string, which counts as empty): both must
/// be non-empty, else 400.
pub fn validate_fields(title: Option<String>, content: Option<String>) -> (r: Result<NewPost, Reply>)
    ensures
        or_empty(opt_view(title)).len() == 0 || or_empty(opt_view(content)).len() == 0 ==> (
        r matches Err(e) && e.status == BAD_REQUEST && e.body@ == empty_field_msg()),
        or_empty(opt_view(title)).len() > 0 && or_empty(opt_view(content)).len() > 0 ==> (
        r matches Ok(n) && n.wf() && n.title@ == or_empty(opt_view(title)) && n.content@
            == or_empty(opt_view(content))),
{
    let title = match title {
        Some(t) => t,
        None => String::new(),
    };
    let content = match content {
        Some(c) => c,
        None => String::new(),
    };
    if title.as_str().is_empty() || content.as_str().is_empty() {
        return Err(error_response(BAD_REQUEST, "Title and content cannot be empty"));
    }
    Ok(NewPost { title, content })
}

/// The post that a create request makes, before it is stored: its title and
/// content are those of the body, its identifier a fresh version-4 UUID.
pub fn plan_create(body: &[u8]) -> (r: Result<Post, Reply>)
    ensures
        !json_parses(body@) ==> (r matches Err(e) && e.status == INTERNAL_ERROR && e.body@
            == read_failed_msg()),
        json_parses(body@) && (title_of(body@).len() == 0 || content_of(body@).len() == 0) ==> (
        r matches Err(e) && e.status == BAD_REQUEST && e.body@ == empty_field_msg()),
        json_parses(body@) && title_of(body@).len() > 0 && content_of(body@).len() > 0 ==> (
        r matches Ok(p) && p.title@ == title_of(body@) && p.content@ == content_of(body@)
            && is_v4(p.id)),
{
    match read_new_post(body) {
        Ok(input) => Ok(Post::create(input)),
        Err(e) => Err(e),
    }
}

/// The reply to a create request once the store has answered: 500 where the
/// insert failed, else 200 with the post as a JSON object (500 where it cannot
/// be written).
pub fn created_reply(post: &Post, stored: Result<(), StoreError>) -> (r: Reply)
    ensures
        stored is Err ==> r.status == INTERNAL_ERROR && r.body@ == insert_failed_msg(),
        stored is Ok ==> match post_json(post@) {
            Some(t) => r.status == OK && r.body@ == t,
            None => r.status == INTERNAL_ERROR && r.body@ == read_failed_msg(),
        },
{
    if stored.is_err() {
        return error_response(INTERNAL_ERROR, "Failed to insert post into database");
    }
    match post.to_json() {
        Some(t) => Reply { status: OK, body: t },
        None => body_unreadable(),
    }
}

/// The reply to a list request once the store has answered: 500 where the
/// select failed or a row's identifier does not parse, else 200 with the JSON
/// array of the posts in the order of the rows (500 where it cannot be
/// written).
pub fn list_reply(fetched: Result<Vec<PostRow>, StoreError>) -> (r: Reply)
    ensures
        fetched is Err ==> r.status == INTERNAL_ERROR && r.body@ == fetch_failed_msg(),
        fetched matches Ok(rows) && rows@.len() == 0 ==> r.status == OK && r.body@ == "[]"@,
        fetched matches Ok(rows) && (exists|i: int|
            0 <= i < rows@.len() && (#[trigger] rows@[i]).id is None) ==> r.status
            == INTERNAL_ERROR && r.body@ == fetch_failed_msg(),
        fetched matches Ok(rows) ==> forall|qs: Seq<PostView>|
            #[trigger] rows_decode_to(rows_view(rows@), qs) ==> match posts_json(qs) {
                Some(t) => r.status == OK && r.body@ == t,
                None => r.status == INTERNAL_ERROR && r.body@ == read_failed_msg(),
            },
        fetched matches Ok(rows) ==> match rows_posts(rows_view(rows@)) {
            None => r.status == INTERNAL_ERROR && r.body@ == fetch_failed_msg(),
            Some(qs) => match posts_json(qs) {
                Some(t) => r.status == OK && r.body@ == t,
                None => r.status == INTERNAL_ERROR && r.body@ == read_failed_msg(),
            },
        },
{
    let rows = match fetched {
        Ok(rows) => rows,
        Err(_) => return error_response(INTERNAL_ERROR, "Failed to fetch posts from database"),
    };
    proof {
        if rows@.len() == 0 {
            assert(rows_decode_to(rows_view(rows@), Seq::empty()));
        }
    }
    let posts = match posts_from_rows(&rows) {
        Ok(ps) => ps,
        Err(_) => {
            proof {
                let rv = rows_view(rows@);
                let k = choose|k: int| 0 <= k < rows@.len() && !(#[trigger] row_post(rows@[k]@) is Some);
                assert(rv[k] == rows@[k]@);
                assert(row_post(rv[k]) is None);
            }
            return error_response(INTERNAL_ERROR, "Failed to fetch posts from database");
        },
    };
    proof {
        let rv = rows_view(rows@);
        assert forall|i: int| 0 <= i < rv.len() implies (#[trigger] row_post(rv[i])) is Some by {
            assert(rv[i] == rows@[i]@);
            assert(Some(posts@[i]@) == row_post(rows@[i]@));
        }
        assert(posts_view(posts@) =~= rows_posts(rv).unwrap());
    }
    match posts_to_json(&posts) {
        Some(t) => {
            proof {
                let qs = posts_view(posts@);
                assert(qs.len() == rows@.len());
                assert(forall|i: int| 0 <= i < qs.len() ==> #[trigger] qs[i] == posts@[i]@);
                if rows@.len() == 0 {
                    reveal_strlit("[");
                    reveal_strlit("]");
                    reveal_strlit("[]");
                    assert(qs =~= Seq::<PostView>::empty());
                    assert(t@ =~= "[]"@);
                }
            }
            Reply { status: OK, body: t }
        },
        None => body_unreadable(),
    }
}

} // verus!

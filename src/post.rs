//! The post record: its in-memory form, its stored row form, and its JSON
//! object form.
use vstd::prelude::*;

use crate::ids::{id_text, is_v4, parse_id, random_id, uuid_parsed, uuid_text};
use crate::json::{json_literal, opt_view, quote};

verus! {

/// A post: a random identifier, a title and a content text.
pub struct Post {
    pub id: u128,
    pub title: String,
    pub content: String,
}

pub struct PostView {
    pub id: u128,
    pub title: Seq<char>,
    pub content: Seq<char>,
}

impl View for Post {
    type V = PostView;

    open spec fn view(&self) -> PostView {
        PostView { id: self.id, title: self.title@, content: self.content@ }
    }
}

/// A post as the store holds it: three text columns, the identifier in its
/// hyphenated form (the column may be null).
pub struct PostRow {
    pub id: Option<String>,
    pub title: String,
    pub content: String,
}

pub struct PostRowView {
    pub id: Option<Seq<char>>,
    pub title: Seq<char>,
    pub content: Seq<char>,
}

impl View for PostRow {
    type V = PostRowView;

    open spec fn view(&self) -> PostRowView {
        PostRowView {
            id: match self.id {
                Some(s) => Some(s@),
                None => None,
            },
            title: self.title@,
            content: self.content@,
        }
    }
}

/// Validated input of a new post: both texts non-empty.
pub struct NewPost {
    pub title: String,
    pub content: String,
}

impl NewPost {
    pub open spec fn wf(&self) -> bool {
        self.title@.len() > 0 && self.content@.len() > 0
    }
}

/// Why the store could not serve a request.
#[derive(Debug, Clone, Copy, PartialEq, Eq, Structural)]
pub enum StoreError {
    /// The insert statement failed.
    Write,
    /// The select statement failed.
    Read,
    /// A stored row holds no identifier, or one that does not parse.
    CorruptId,
}

/// The row that stores a post.
pub open spec fn row_of(p: PostView) -> PostRowView {
    PostRowView { id: Some(uuid_text(p.id)), title: p.title, content: p.content }
}

/// The post that a stored row holds, where its identifier parses.
pub open spec fn row_post(row: PostRowView) -> Option<PostView> {
    match row.id {
        Some(s) => match uuid_parsed(s) {
            Some(v) => Some(PostView { id: v, title: row.title, content: row.content }),
            None => None,
        },
        None => None,
    }
}

/// The posts that a sequence of stored rows holds, where every identifier
/// parses.
pub open spec fn rows_posts(rows: Seq<PostRowView>) -> Option<Seq<PostView>> {
    if forall|i: int| 0 <= i < rows.len() ==> (#[trigger] row_post(rows[i])) is Some {
        Some(Seq::new(rows.len(), |i: int| row_post(rows[i]).unwrap()))
    } else {
        None
    }
}

/// `{"id":I,"title":T,"content":C}` with the three JSON literals.
pub open spec fn object_text(i: Seq<char>, t: Seq<char>, c: Seq<char>) -> Seq<char> {
    "{\"id\":"@ + i + ",\"title\":"@ + t + ",\"content\":"@ + c + "}"@
}

/// The JSON object of a post, where each of its texts can be quoted.
pub open spec fn post_json(p: PostView) -> Option<Seq<char>> {
    match (json_literal(uuid_text(p.id)), json_literal(p.title), json_literal(p.content)) {
        (Some(i), Some(t), Some(c)) => Some(object_text(i, t, c)),
        _ => None,
    }
}

/// The JSON object with the given literals for its identifier, title and
/// content.
pub fn frame_object(i: &str, t: &str, c: &str) -> (r: String)
    ensures
        r@ == object_text(i@, t@, c@),
{
    let mut out = String::from_str("{\"id\":");
    out.append(i);
    out.append(",\"title\":");
    out.append(t);
    out.append(",\"content\":");
    out.append(c);
    out.append("}");
    out
}

impl Post {
    /// A fresh post for validated input, under a new random identifier.
    pub fn create(input: NewPost) -> (p: Post)
        requires
            input.wf(),
        ensures
            p.title@ == input.title@,
            p.content@ == input.content@,
            p.title@.len() > 0,
            p.content@.len() > 0,
            is_v4(p.id),
    {
        let id = random_id();
        Post { id, title: input.title, content: input.content }
    }

    /// The row that stores this post.
    pub fn to_row(&self) -> (r: PostRow)
        ensures
            r@ == row_of(self@),
    {
        PostRow { id: Some(id_text(self.id)), title: self.title.clone(), content: self.content.clone() }
    }

    /// The post that a stored row holds; a row without a parsable identifier
    /// is an error. A row written by `to_row` reads back as the same post.
    pub fn from_row(row: &PostRow) -> (r: Result<Post, StoreError>)
        ensures
            row.id is None ==> r == Err::<Post, StoreError>(StoreError::CorruptId),
            r is Err ==> r == Err::<Post, StoreError>(StoreError::CorruptId),
            r is Ok <==> row_post(row@) is Some,
            r matches Ok(p) ==> Some(p@) == row_post(row@),
            forall|q: PostView| #[trigger] row_of(q) == row@ ==> (r matches Ok(p) && p@ == q),
    {
        match &row.id {
            None => Err(StoreError::CorruptId),
            Some(s) => match parse_id(s.as_str()) {
                Ok(id) => Ok(Post { id, title: row.title.clone(), content: row.content.clone() }),
                Err(_) => Err(StoreError::CorruptId),
            },
        }
    }

    /// The JSON object of this post, or `None` where a text cannot be quoted.
    pub fn to_json(&self) -> (r: Option<String>)
        ensures
            opt_view(r) == post_json(self@),
    {
        let idt = id_text(self.id);
        let i = match quote(idt.as_str()) {
            Ok(i) => i,
            Err(_) => return None,
        };
        let t = match quote(self.title.as_str()) {
            Ok(t) => t,
            Err(_) => return None,
        };
        let c = match quote(self.content.as_str()) {
            Ok(c) => c,
            Err(_) => return None,
        };
        Some(frame_object(i.as_str(), t.as_str(), c.as_str()))
    }
}

/// The views of a sequence of rows.
pub open spec fn rows_view(rows: Seq<PostRow>) -> Seq<PostRowView> {
    rows.map_values(|r: PostRow| r@)
}

/// The views of a sequence of posts.
pub open spec fn posts_view(ps: Seq<Post>) -> Seq<PostView> {
    ps.map_values(|p: Post| p@)
}

/// Each row is the stored form of the post at the same position.
pub open spec fn rows_decode_to(rows: Seq<PostRowView>, posts: Seq<PostView>) -> bool {
    rows.len() == posts.len() && forall|i: int| 0 <= i < rows.len() ==> #[trigger] rows[i] == row_of(posts[i])
}

/// The rows written for a sequence of posts are, position by position, the
/// stored forms of those posts: read back, they give the same posts.
pub proof fn lemma_stored_rows_read_back(qs: Seq<PostView>)
    ensures
        rows_decode_to(qs.map_values(|q: PostView| row_of(q)), qs),
{
}

/// The posts that a sequence of stored rows holds, in the same order; the
/// first row without a parsable identifier fails the whole read.
pub fn posts_from_rows(rows: &Vec<PostRow>) -> (r: Result<Vec<Post>, StoreError>)
    ensures
        (exists|i: int| 0 <= i < rows@.len() && (#[trigger] rows@[i]).id is None) ==> r is Err,
        r is Err ==> r == Err::<Vec<Post>, StoreError>(StoreError::CorruptId),
        r is Ok <==> forall|i: int| 0 <= i < rows@.len() ==> (#[trigger] row_post(rows@[i]@)) is Some,
        r matches Ok(ps) ==> ps@.len() == rows@.len() && forall|i: int|
            0 <= i < rows@.len() ==> Some((#[trigger] ps@[i])@) == row_post(rows@[i]@),
        forall|qs: Seq<PostView>| #[trigger] rows_decode_to(rows_view(rows@), qs) ==> (
            r matches Ok(ps) && posts_view(ps@) == qs),
{
    let mut out: Vec<Post> = Vec::new();
    let mut i: usize = 0;
    while i < rows.len()
        invariant
            i <= rows@.len(),
            out@.len() == i,
            forall|k: int| 0 <= k < i ==> rows@[k].id is Some,
            forall|k: int| 0 <= k < i ==> Some((#[trigger] out@[k])@) == row_post(rows@[k]@),
            forall|k: int, q: PostView| 0 <= k < i && #[trigger] row_of(q) == rows@[k]@ ==> (#[trigger] out@[k])@ == q,
        decreases rows@.len() - i,
    {
        match Post::from_row(&rows[i]) {
            Ok(p) => out.push(p),
            Err(e) => {
                assert(row_post(rows@[i as int]@) is None);
                proof {
                    assert forall|qs: Seq<PostView>| #[trigger] rows_decode_to(rows_view(rows@), qs) implies false by {
                        assert(rows_view(rows@)[i as int] == row_of(qs[i as int]));
                    }
                }
                return Err(e);
            },
        }
        i = i + 1;
    }
    proof {
        assert forall|k: int| 0 <= k < rows@.len() implies (#[trigger] row_post(rows@[k]@)) is Some by {
            assert(Some(out@[k]@) == row_post(rows@[k]@));
        }
        assert forall|qs: Seq<PostView>| #[trigger] rows_decode_to(rows_view(rows@), qs) implies posts_view(out@) == qs by {
            assert forall|k: int| 0 <= k < qs.len() implies posts_view(out@)[k] == qs[k] by {
                assert(rows_view(rows@)[k] == row_of(qs[k]));
            }
            assert(posts_view(out@) =~= qs);
        }
    }
    Ok(out)
}

/// The JSON objects of a sequence of posts joined by commas.
pub open spec fn objects_text(ps: Seq<PostView>) -> Seq<char>
    decreases ps.len(),
{
    if ps.len() == 0 {
        Seq::empty()
    } else if ps.len() == 1 {
        post_json(ps[0]).unwrap()
    } else {
        objects_text(ps.drop_last()) + ","@ + post_json(ps.last()).unwrap()
    }
}

/// The JSON array of a sequence of posts, where each of them can be written.
pub open spec fn posts_json(ps: Seq<PostView>) -> Option<Seq<char>> {
    if forall|i: int| 0 <= i < ps.len() ==> (#[trigger] post_json(ps[i])) is Some {
        Some("["@ + objects_text(ps) + "]"@)
    } else {
        None
    }
}

proof fn lemma_objects_hold_each(ps: Seq<PostView>, k: int)
    requires
        forall|i: int| 0 <= i < ps.len() ==> (#[trigger] post_json(ps[i])) is Some,
        0 <= k < ps.len(),
    ensures
        exists|a: Seq<char>, b: Seq<char>| objects_text(ps) == a + post_json(ps[k]).unwrap() + b,
    decreases ps.len(),
{
    let x = post_json(ps[k]).unwrap();
    if ps.len() == 1 {
        assert(objects_text(ps) == Seq::<char>::empty() + x + Seq::<char>::empty());
    } else if k == ps.len() - 1 {
        let a = objects_text(ps.drop_last()) + ","@;
        assert(objects_text(ps) == a + x + Seq::<char>::empty());
    } else {
        let init = ps.drop_last();
        assert(init[k] == ps[k]);
        assert forall|i: int| 0 <= i < init.len() implies (#[trigger] post_json(init[i])) is Some by {
            assert(init[i] == ps[i]);
        }
        lemma_objects_hold_each(init, k);
        let (a, b) = choose|a: Seq<char>, b: Seq<char>| objects_text(init) == a + x + b;
        let b2 = b + ","@ + post_json(ps.last()).unwrap();
        assert(objects_text(ps) == a + x + b2);
    }
}

/// A JSON array of posts holds the object of each of them: for every
/// position, the array is some text, then that post's object, then some text.
pub proof fn lemma_listing_holds_each(ps: Seq<PostView>, k: int)
    requires
        posts_json(ps) is Some,
        0 <= k < ps.len(),
    ensures
        exists|a: Seq<char>, b: Seq<char>| posts_json(ps).unwrap() == a + post_json(ps[k]).unwrap() + b,
{
    lemma_objects_hold_each(ps, k);
    let x = post_json(ps[k]).unwrap();
    let (a, b) = choose|a: Seq<char>, b: Seq<char>| objects_text(ps) == a + x + b;
    assert(posts_json(ps).unwrap() == ("["@ + a) + x + (b + "]"@));
}

/// The JSON array of the posts, in their order; `None` where a text cannot be
/// quoted.
pub fn posts_to_json(posts: &Vec<Post>) -> (r: Option<String>)
    ensures
        opt_view(r) == posts_json(posts_view(posts@)),
{
    let ghost pv = posts_view(posts@);
    let mut out = String::from_str("[");
    let mut i: usize = 0;
    while i < posts.len()
        invariant
            i <= posts@.len(),
            pv == posts_view(posts@),
            forall|k: int| 0 <= k < i ==> (#[trigger] post_json(pv[k])) is Some,
            out@ == "["@ + objects_text(pv.take(i as int)),
        decreases posts@.len() - i,
    {
        let item = match posts[i].to_json() {
            Some(t) => t,
            None => {
                assert(post_json(pv[i as int]) is None);
                return None;
            },
        };
        proof {
            assert(pv.take(i + 1).drop_last() =~= pv.take(i as int));
            assert(pv.take(i + 1).last() == pv[i as int]);
        }
        if i > 0 {
            out.append(",");
        }
        out.append(item.as_str());
        proof {
            if i == 0 {
                assert(out@ =~= "["@ + objects_text(pv.take(1)));
            } else {
                assert(out@ =~= "["@ + objects_text(pv.take(i + 1)));
            }
        }
        i = i + 1;
    }
    out.append("]");
    assert(pv.take(i as int) =~= pv);
    Some(out)
}

} // verus!

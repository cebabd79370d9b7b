//! The unit of content and the record kept for each known peer.

use vstd::prelude::*;

verus! {

/// A short text post. Two posts with the same `id` are the same logical post.
#[derive(Debug)]
pub struct Post {
    pub id: String,
    pub author: String,
    pub author_name: Option<String>,
    pub content: String,
    pub timestamp: i64,
}

/// The mathematical value of a [`Post`].
pub ghost struct PostView {
    pub id: Seq<char>,
    pub author: Seq<char>,
    pub author_name: Option<Seq<char>>,
    pub content: Seq<char>,
    pub timestamp: i64,
}

/// The characters of an optional string.
pub open spec fn opt_text(s: Option<String>) -> Option<Seq<char>> {
    match s {
        Some(t) => Some(t@),
        None => None,
    }
}

impl View for Post {
    type V = PostView;

    open spec fn view(&self) -> PostView {
        PostView {
            id: self.id@,
            author: self.author@,
            author_name: opt_text(self.author_name),
            content: self.content@,
            timestamp: self.timestamp,
        }
    }
}

/// Copies an optional string.
pub fn clone_opt_string(s: &Option<String>) -> (r: Option<String>)
    ensures
        r == *s,
{
    match s {
        Some(t) => Some(t.clone()),
        None => None,
    }
}

impl Clone for Post {
    fn clone(&self) -> (r: Self)
        ensures
            r == *self,
    {
        Post {
            id: self.id.clone(),
            author: self.author.clone(),
            author_name: clone_opt_string(&self.author_name),
            content: self.content.clone(),
            timestamp: self.timestamp,
        }
    }
}

impl PartialEq for Post {
    fn eq(&self, other: &Self) -> (r: bool) {
        self.id == other.id && self.author == other.author && opt_string_eq(
            &self.author_name,
            &other.author_name,
        ) && self.content == other.content && self.timestamp == other.timestamp
    }
}

impl vstd::std_specs::cmp::PartialEqSpecImpl for Post {
    open spec fn obeys_eq_spec() -> bool {
        true
    }

    open spec fn eq_spec(&self, other: &Self) -> bool {
        self@ == other@
    }
}

/// Whether two optional strings hold the same characters.
pub fn opt_string_eq(a: &Option<String>, b: &Option<String>) -> (r: bool)
    ensures
        r == (opt_text(*a) == opt_text(*b)),
{
    match a {
        Some(x) => match b {
            Some(y) => *x == *y,
            None => false,
        },
        None => b.is_none(),
    }
}

/// The views of a sequence of posts, in order.
pub open spec fn post_views(posts: Seq<Post>) -> Seq<PostView> {
    posts.map_values(|p: Post| p@)
}

/// Copies a list of posts.
pub fn clone_posts(posts: &Vec<Post>) -> (r: Vec<Post>)
    ensures
        post_views(r@) == post_views(posts@),
{
    let mut out: Vec<Post> = Vec::new();
    let mut i: usize = 0;
    while i < posts.len()
        invariant
            i <= posts.len(),
            out@.len() == i,
            forall|k: int| 0 <= k < i ==> (#[trigger] out@[k])@ == posts@[k]@,
        decreases posts.len() - i,
    {
        out.push(posts[i].clone());
        i += 1;
    }
    proof {
        assert(post_views(out@) =~= post_views(posts@));
    }
    out
}

} // verus!

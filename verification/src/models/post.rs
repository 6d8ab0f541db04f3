//! Posts in the channels of a server.

use vstd::prelude::*;
use crate::models::member::MemberShort;
use crate::time::{Timestamp, format_created_at, us_date_time_12h};

verus! {

/// The fields of a post to be written.
pub struct NewPost {
    pub content: String,
    pub author_id: i32,
    pub channel_id: i32,
}

/// A post as the server stores it.
pub struct Post {
    pub id: i32,
    pub content: String,
    pub author_id: i32,
    pub channel_id: i32,
    pub created_at: Timestamp,
}

impl Post {
    /// When the post was written, as `MM/DD/YYYY hh:mm AM`.
    pub fn created_at(&self) -> (s: String)
        ensures
            s@ == us_date_time_12h(
                self.created_at.parts(),
            ),
    {
        format_created_at(&self.created_at)
    }

    /// The placeholder post.
    pub fn default() -> (p: Post)
        ensures
            p.id == 0,
            p.content@ == "Post"@,
            p.author_id == 0,
            p.channel_id == 0,
            p.created_at == Timestamp::spec_epoch(),
    {
        Post {
            id: 0,
            content: String::from_str("Post"),
            author_id: 0,
            channel_id: 0,
            created_at: Timestamp::epoch(),
        }
    }
}

/// A post with its author.
pub struct PostDetail {
    pub id: i32,
    pub content: String,
    pub author: MemberShort,
    pub channel_id: i32,
    pub created_at: Timestamp,
}

impl PostDetail {
    /// When the post was written, as `MM/DD/YYYY hh:mm AM`.
    pub fn created_at(&self) -> (s: String)
        ensures
            s@ == us_date_time_12h(
                self.created_at.parts(),
            ),
    {
        format_created_at(&self.created_at)
    }

    pub fn new(
        id: i32,
        content: String,
        author: MemberShort,
        channel_id: i32,
        created_at: Timestamp,
    ) -> (p: PostDetail)
        ensures
            p.id == id,
            p.content == content,
            p.author == author,
            p.channel_id == channel_id,
            p.created_at == created_at,
    {
        PostDetail { id, content, author, channel_id, created_at }
    }

    /// The placeholder post.
    pub fn default() -> (p: PostDetail)
        ensures
            p.id == 0,
            p.content@ == "Post"@,
            p.author.is_guest(),
            p.channel_id == 0,
            p.created_at == Timestamp::spec_epoch(),
    {
        PostDetail {
            id: 0,
            content: String::from_str("Post"),
            author: MemberShort::default(),
            channel_id: 0,
            created_at: Timestamp::epoch(),
        }
    }
}

impl Clone for PostDetail {
    fn clone(&self) -> (p: PostDetail)
        ensures
            p == *self,
    {
        PostDetail {
            id: self.id,
            content: self.content.clone(),
            author: self.author.clone(),
            channel_id: self.channel_id,
            created_at: self.created_at,
        }
    }
}

/// The posts of a channel, oldest first.
pub struct MultiPost {
    pub posts: Vec<PostDetail>,
}

impl View for MultiPost {
    type V = Seq<PostDetail>;

    open spec fn view(&self) -> Seq<PostDetail> {
        self.posts@
    }
}

impl MultiPost {
    pub fn new(posts: Vec<PostDetail>) -> (m: MultiPost)
        ensures
            m@ == posts@,
    {
        MultiPost { posts }
    }

    /// No posts.
    pub fn default() -> (m: MultiPost)
        ensures
            m@ == Seq::<PostDetail>::empty(),
    {
        MultiPost::new(Vec::new())
    }
}

impl Clone for MultiPost {
    fn clone(&self) -> (m: MultiPost)
        ensures
            m@ == self@,
    {
        MultiPost { posts: self.posts.clone() }
    }
}

} // verus!
